//! The session of one client, as a chain of phases.
//!
//! ```text
//! NewUnauthenticatedClient --accept_method--> NewAuthenticatedClient
//!            |                                         |
//!          refuse                                 on_request
//!            |                                         v
//!            v                                    EarlyClient --reply_success--> Client
//!          (end)                                       |
//!                                                 reply_error
//!                                                      v
//!                                                    (end)
//! ```
//!
//! Each phase is a type of its own with private fields, and each step takes
//! the phase by value: a request can only be handed to a value that
//! `accept_method` returned, and no phase can be used twice. A step returns
//! the bytes that the caller has to send to the client.

use vstd::prelude::*;
use crate::address::{Address, AddressView};
use crate::authentication::Method;
use crate::command::Command;
use crate::messages::{
    InitialMessage, InitialMessageView, InitialResponse, Reply, ReplyType, ReplyView, Request,
    RequestView, PROTOCOL_VERSION,
};
use crate::request_error::RequestError;

verus! {

/// The methods that the initial message in `initial_packet` proposes, or the
/// reason why no session starts from it: the error of the codec, or
/// `UnsupportedVersion` when the message decodes and names another version.
pub open spec fn spec_proposed_methods(initial_packet: Seq<u8>) -> Result<
    Seq<Method>,
    RequestError,
> {
    match InitialMessageView::decode(initial_packet) {
        Err(error) => Err(error),
        Ok(message) => if message.version == PROTOCOL_VERSION {
            Ok(message.methods)
        } else {
            Err(RequestError::UnsupportedVersion(message.version))
        },
    }
}

/// The request in `packet` as a session takes it, or the reason why it does
/// not: the error of the codec, or `UnsupportedVersion` when the request
/// decodes and names another version.
pub open spec fn spec_accepted_request(packet: Seq<u8>) -> Result<RequestView, RequestError> {
    match RequestView::decode(packet) {
        Err(error) => Err(error),
        Ok(request) => if request.version == PROTOCOL_VERSION {
            Ok(request)
        } else {
            Err(RequestError::UnsupportedVersion(request.version))
        },
    }
}

/// A client that has sent its initial message and has no answer yet.
pub struct NewUnauthenticatedClient {
    methods: Vec<Method>,
}

impl View for NewUnauthenticatedClient {
    type V = Seq<Method>;

    /// The methods that the client proposed, in its order.
    closed spec fn view(&self) -> Seq<Method> {
        self.methods@
    }
}

impl NewUnauthenticatedClient {
    /// Starts a session from the initial message of a client.
    ///
    /// Fails with the error of the codec when the message does not decode,
    /// and with `UnsupportedVersion` when it names another version than
    /// [`PROTOCOL_VERSION`].
    pub fn new(initial_packet: &[u8]) -> (res: Result<NewUnauthenticatedClient, RequestError>)
        ensures
            match res {
                Ok(client) => spec_proposed_methods(initial_packet@) == Ok::<
                    Seq<Method>,
                    RequestError,
                >(client@),
                Err(error) => spec_proposed_methods(initial_packet@) == Err::<
                    Seq<Method>,
                    RequestError,
                >(error),
            },
    {
        let message: InitialMessage = InitialMessage::decode(initial_packet)?;
        if message.version == PROTOCOL_VERSION {
            Ok(NewUnauthenticatedClient { methods: message.methods })
        } else {
            Err(RequestError::UnsupportedVersion(message.version))
        }
    }

    /// The methods that the client proposed.
    pub fn methods(&self) -> (res: &Vec<Method>)
        ensures
            res@ == self@,
    {
        &self.methods
    }

    /// Selects `method` for the client. Returns the next phase and the
    /// response to send.
    ///
    /// The method is the server's own choice, so an unacceptable one is a
    /// fault of the caller and not an error of the protocol.
    pub fn accept_method(self, method: Method) -> (res: (NewAuthenticatedClient, Vec<u8>))
        requires
            method.is_acceptable(),
        ensures
            res.0.method() == method,
            res.1@ == (InitialResponse { version: PROTOCOL_VERSION, method }).spec_encode(),
    {
        let client = NewAuthenticatedClient { method: Ghost(method) };
        let initial_response = InitialResponse { version: PROTOCOL_VERSION, method };
        (client, initial_response.encode())
    }

    /// Refuses the client and ends the session. Returns the response to
    /// send, which selects `NoAcceptableMethods`.
    pub fn refuse(self) -> (res: Vec<u8>)
        ensures
            res@ == (InitialResponse {
                version: PROTOCOL_VERSION,
                method: Method::NoAcceptableMethods,
            }).spec_encode(),
    {
        let response = InitialResponse {
            version: PROTOCOL_VERSION,
            method: Method::NoAcceptableMethods,
        };
        response.encode()
    }
}

/// A client for which a method was selected and whose request is awaited.
///
/// The phase holds nothing at run time. Its only field is a ghost record of
/// the selected method, and it is private: no value of this type exists but
/// those that `accept_method` returned.
pub struct NewAuthenticatedClient {
    method: Ghost<Method>,
}

impl NewAuthenticatedClient {
    /// In every value of this phase the selected method is an acceptable one.
    #[verifier::type_invariant]
    spec fn inv(self) -> bool {
        self.method@.is_acceptable()
    }

    /// The method that was selected.
    pub closed spec fn method(&self) -> Method {
        self.method@
    }

    /// Takes the request of the client.
    ///
    /// Fails with the error of the codec when the request does not decode,
    /// and with `UnsupportedVersion` when it decodes and names another
    /// version than [`PROTOCOL_VERSION`].
    pub fn on_request(self, packet: &[u8]) -> (res: Result<EarlyClient, RequestError>)
        ensures
            match res {
                Ok(client) => spec_accepted_request(packet@) == Ok::<RequestView, RequestError>(
                    RequestView {
                        version: PROTOCOL_VERSION,
                        command: client.command(),
                        dest_address: client.dest_address()@,
                    },
                ),
                Err(error) => spec_accepted_request(packet@) == Err::<RequestView, RequestError>(
                    error,
                ),
            },
    {
        let message: Request = Request::decode(packet)?;
        if message.version != PROTOCOL_VERSION {
            Err(RequestError::UnsupportedVersion(message.version))
        } else {
            Ok(EarlyClient { command: message.command, dest_address: message.dest_address })
        }
    }
}

/// A client whose request was read and has no reply yet.
pub struct EarlyClient {
    command: Command,
    dest_address: Address,
}

impl EarlyClient {
    /// In every value of this phase the destination can be encoded.
    #[verifier::type_invariant]
    spec fn inv(self) -> bool {
        self.dest_address.wf()
    }

    /// The command that the client asked for.
    pub closed spec fn spec_command(&self) -> Command {
        self.command
    }

    /// The destination that the client asked for.
    pub closed spec fn spec_dest_address(&self) -> &Address {
        &self.dest_address
    }

    /// The command that the client asked for.
    #[verifier::when_used_as_spec(spec_command)]
    pub fn command(&self) -> (res: Command)
        ensures
            res == self.spec_command(),
    {
        self.command
    }

    /// The destination that the client asked for.
    #[verifier::when_used_as_spec(spec_dest_address)]
    pub fn dest_address(&self) -> (res: &Address)
        ensures
            res == self.spec_dest_address(),
            res.wf(),
    {
        proof {
            use_type_invariant(self);
        }
        &self.dest_address
    }

    /// Reports a failure and ends the session. Returns the reply to send: it
    /// carries `reply_type` and the unspecified address `0.0.0.0:0`.
    pub fn reply_error(self, reply_type: ReplyType) -> (res: Vec<u8>)
        ensures
            res@ == (ReplyView {
                version: PROTOCOL_VERSION,
                reply: reply_type,
                bound_address: AddressView::Ipv4 { octets: seq![0u8, 0u8, 0u8, 0u8], port: 0 },
            }).encode(),
    {
        let reply = Reply {
            version: PROTOCOL_VERSION,
            reply: reply_type,
            bound_address: Address::unspecified(),
        };
        reply.encode()
    }

    /// Reports success. Returns the last phase and the reply to send: it
    /// carries `Succeeded` and `bound_address`.
    pub fn reply_success(self, bound_address: Address) -> (res: (Client, Vec<u8>))
        requires
            bound_address.wf(),
        ensures
            res.0.command() == self.command(),
            res.0.dest_address() == self.dest_address(),
            res.0.bound_address() == bound_address,
            res.1@ == (ReplyView {
                version: PROTOCOL_VERSION,
                reply: ReplyType::Succeeded,
                bound_address: bound_address@,
            }).encode(),
    {
        proof {
            use_type_invariant(&self);
        }
        let reply = Reply {
            version: PROTOCOL_VERSION,
            reply: ReplyType::Succeeded,
            bound_address,
        };
        let bytes: Vec<u8> = reply.encode();
        let client = Client {
            command: self.command,
            dest_address: self.dest_address,
            bound_address: reply.bound_address,
        };
        (client, bytes)
    }
}

/// A client whose request succeeded: what the relay works with.
pub struct Client {
    command: Command,
    dest_address: Address,
    bound_address: Address,
}

impl Client {
    /// In every value of this phase both addresses can be encoded.
    #[verifier::type_invariant]
    spec fn inv(self) -> bool {
        self.dest_address.wf() && self.bound_address.wf()
    }

    /// The command that the client asked for.
    pub closed spec fn spec_command(&self) -> Command {
        self.command
    }

    /// The destination that the client asked for.
    pub closed spec fn spec_dest_address(&self) -> &Address {
        &self.dest_address
    }

    /// The address that was reported to the client.
    pub closed spec fn spec_bound_address(&self) -> &Address {
        &self.bound_address
    }

    /// The command that the client asked for.
    #[verifier::when_used_as_spec(spec_command)]
    pub fn command(&self) -> (res: Command)
        ensures
            res == self.spec_command(),
    {
        self.command
    }

    /// The destination that the client asked for.
    #[verifier::when_used_as_spec(spec_dest_address)]
    pub fn dest_address(&self) -> (res: &Address)
        ensures
            res == self.spec_dest_address(),
            res.wf(),
    {
        proof {
            use_type_invariant(self);
        }
        &self.dest_address
    }

    /// The address that was reported to the client.
    #[verifier::when_used_as_spec(spec_bound_address)]
    pub fn bound_address(&self) -> (res: &Address)
        ensures
            res == self.spec_bound_address(),
            res.wf(),
    {
        proof {
            use_type_invariant(self);
        }
        &self.bound_address
    }
}

} // verus!
