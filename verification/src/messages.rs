//! The four messages of the handshake and their codecs.
//!
//! | message          | layout                                        |
//! |------------------|-----------------------------------------------|
//! | initial message  | version, number of methods, one byte a method |
//! | initial response | version, selected method                      |
//! | request          | version, command, reserved byte, address      |
//! | reply            | version, reply type, reserved byte, address   |
//!
//! The codecs do not judge the version byte: they carry it, and the session
//! in [`crate::client`] compares it with [`PROTOCOL_VERSION`].

use vstd::prelude::*;
use crate::address::{Address, AddressView};
use crate::authentication::Method;
use crate::command::Command;
use crate::request_error::RequestError;

verus! {

/// The version of the protocol that this crate speaks.
pub const PROTOCOL_VERSION: u8 = 5;

/// The methods that the bytes `codes` stand for, in their order.
pub open spec fn methods_of_codes(codes: Seq<u8>) -> Seq<Method> {
    Seq::new(codes.len(), |i: int| Method::spec_new(codes[i]))
}

/// The codes of `methods`, in their order.
pub open spec fn codes_of_methods(methods: Seq<Method>) -> Seq<u8> {
    Seq::new(methods.len(), |i: int| methods[i].spec_code())
}

/// What follows the three header bytes of a request or a reply: the address
/// field. It is empty when the buffer holds no more than the header.
pub open spec fn after_header(bytes: Seq<u8>) -> Seq<u8> {
    if bytes.len() >= 3 {
        bytes.subrange(3, bytes.len() as int)
    } else {
        Seq::empty()
    }
}

/// The first message of a client: the methods by which it can authenticate.
#[derive(Eq, PartialEq, Debug)]
pub struct InitialMessage {
    /// The version byte, as received.
    pub version: u8,
    /// The proposed methods, in the order of the message.
    pub methods: Vec<Method>,
}

/// An initial message as a mathematical value.
pub struct InitialMessageView {
    /// The version byte.
    pub version: u8,
    /// The proposed methods, in the order of the message.
    pub methods: Seq<Method>,
}

impl View for InitialMessage {
    type V = InitialMessageView;

    open spec fn view(&self) -> InitialMessageView {
        InitialMessageView { version: self.version, methods: self.methods@ }
    }
}

impl InitialMessageView {
    /// Whether the message can be laid out: the number of methods fits in
    /// one byte.
    pub open spec fn wf(self) -> bool {
        self.methods.len() < 256
    }

    /// Whether each method is the one that its code stands for.
    pub open spec fn methods_wf(self) -> bool {
        forall|i: int| 0 <= i < self.methods.len() ==> (#[trigger] self.methods[i]).wf()
    }

    /// The bytes of the message on the wire.
    pub open spec fn encode(self) -> Seq<u8> {
        seq![self.version, self.methods.len() as u8] + codes_of_methods(self.methods)
    }

    /// The message that `bytes` holds, or the reason why it holds none. The
    /// buffer must end where the message does.
    pub open spec fn decode(bytes: Seq<u8>) -> Result<InitialMessageView, RequestError> {
        if bytes.len() < 2 {
            Err(RequestError::PacketTooShort)
        } else if bytes.len() != bytes[1] + 2 {
            Err(
                RequestError::LengthMismatch {
                    received: bytes.len() as usize,
                    expected: (bytes[1] + 2) as usize,
                },
            )
        } else {
            Ok(
                InitialMessageView {
                    version: bytes[0],
                    methods: methods_of_codes(bytes.subrange(2, bytes.len() as int)),
                },
            )
        }
    }

    /// Round trip: decoding the bytes of a message gives the message back.
    pub proof fn lemma_decode_encode(self)
        requires
            self.wf(),
            self.methods_wf(),
        ensures
            InitialMessageView::decode(self.encode()) == Ok::<InitialMessageView, RequestError>(
                self,
            ),
    {
        let bytes = self.encode();
        let codes = bytes.subrange(2, bytes.len() as int);
        assert forall|i: int| 0 <= i < self.methods.len() implies methods_of_codes(codes)[i]
            == self.methods[i] by {
            Method::lemma_new_of_code(self.methods[i]);
        }
        assert(methods_of_codes(codes) =~= self.methods);
    }

    /// The converse: the bytes of what decodes from a buffer are the buffer.
    pub proof fn lemma_encode_decode(bytes: Seq<u8>)
        requires
            InitialMessageView::decode(bytes) is Ok,
        ensures
            InitialMessageView::decode(bytes).unwrap().wf(),
            InitialMessageView::decode(bytes).unwrap().methods_wf(),
            InitialMessageView::decode(bytes).unwrap().encode() == bytes,
    {
        let message = InitialMessageView::decode(bytes).unwrap();
        assert forall|i: int| 0 <= i < message.methods.len() implies codes_of_methods(
            message.methods,
        )[i] == bytes[2 + i] by {
            Method::lemma_code_of_new(bytes[2 + i]);
        }
        assert(message.encode() =~= bytes);
    }

    /// Truncation: no proper prefix of the bytes of a message decodes. One
    /// of fewer than two bytes is too short; a longer one has not the length
    /// that its second byte announces.
    pub proof fn lemma_truncated(self, len: int)
        requires
            self.wf(),
            0 <= len < self.encode().len(),
        ensures
            len < 2 ==> InitialMessageView::decode(self.encode().subrange(0, len)) == Err::<
                InitialMessageView,
                RequestError,
            >(RequestError::PacketTooShort),
            len >= 2 ==> InitialMessageView::decode(self.encode().subrange(0, len)) == Err::<
                InitialMessageView,
                RequestError,
            >(
                RequestError::LengthMismatch {
                    received: len as usize,
                    expected: (self.methods.len() + 2) as usize,
                },
            ),
    {
    }
}

impl InitialMessage {
    /// Decodes the initial message of a client.
    ///
    /// Fails with `PacketTooShort` on fewer than two bytes, and with
    /// `LengthMismatch` when the buffer is not two bytes longer than the
    /// number of methods that its second byte announces.
    pub fn decode(bytes: &[u8]) -> (res: Result<InitialMessage, RequestError>)
        ensures
            match res {
                Ok(message) => InitialMessageView::decode(bytes@) == Ok::<
                    InitialMessageView,
                    RequestError,
                >(message@),
                Err(error) => InitialMessageView::decode(bytes@) == Err::<
                    InitialMessageView,
                    RequestError,
                >(error),
            },
            res matches Ok(message) ==> message@.wf() && message@.methods_wf(),
    {
        if bytes.len() < 2 {
            return Err(RequestError::PacketTooShort);
        }
        let version: u8 = bytes[0];
        let expected: usize = bytes[1] as usize + 2;
        if bytes.len() != expected {
            return Err(RequestError::LengthMismatch { received: bytes.len(), expected });
        }
        let mut methods: Vec<Method> = Vec::with_capacity(expected - 2);
        let mut i: usize = 2;
        while i < bytes.len()
            invariant
                2 <= i <= bytes@.len(),
                methods@ == methods_of_codes(bytes@.subrange(2, i as int)),
            decreases bytes@.len() - i,
        {
            methods.push(Method::new(bytes[i]));
            i += 1;
        }
        Ok(InitialMessage { version, methods })
    }

    /// Encodes the message: version, number of methods, and the code of each.
    pub fn encode(&self) -> (res: Vec<u8>)
        requires
            self@.wf(),
        ensures
            res@ == self@.encode(),
    {
        let count: usize = self.methods.len();
        let mut res: Vec<u8> = Vec::with_capacity(count + 2);
        res.push(self.version);
        res.push(count as u8);
        let mut i: usize = 0;
        while i < count
            invariant
                i <= count,
                count == self.methods@.len(),
                res@ == seq![self.version, count as u8] + codes_of_methods(
                    self.methods@.subrange(0, i as int),
                ),
            decreases count - i,
        {
            res.push(self.methods[i].code());
            i += 1;
        }
        assert(self.methods@.subrange(0, count as int) =~= self.methods@);
        res
    }
}

/// The server's answer to the initial message: the method it selected.
#[derive(Copy, Clone, Eq, PartialEq, Debug, Structural)]
pub struct InitialResponse {
    /// The version byte.
    pub version: u8,
    /// The selected method, or `NoAcceptableMethods`.
    pub method: Method,
}

impl InitialResponse {
    /// The two bytes of the response on the wire.
    pub open spec fn spec_encode(&self) -> Seq<u8> {
        seq![self.version, self.method.spec_code()]
    }

    /// The response that `bytes` starts with, or the reason why it starts
    /// with none. Bytes that follow the response are ignored.
    pub open spec fn spec_decode(bytes: Seq<u8>) -> Result<InitialResponse, RequestError> {
        if bytes.len() < 2 {
            Err(RequestError::PacketTooShort)
        } else {
            Ok(InitialResponse { version: bytes[0], method: Method::spec_new(bytes[1]) })
        }
    }

    /// Round trip: decoding the bytes of a response gives the response back.
    pub proof fn lemma_decode_encode(self)
        requires
            self.method.wf(),
        ensures
            InitialResponse::spec_decode(self.spec_encode()) == Ok::<InitialResponse, RequestError>(
                self,
            ),
    {
    }

    /// The converse: the bytes of what decodes from a buffer are the two that
    /// the buffer starts with.
    pub proof fn lemma_encode_decode(bytes: Seq<u8>)
        requires
            InitialResponse::spec_decode(bytes) is Ok,
        ensures
            InitialResponse::spec_decode(bytes).unwrap().method.wf(),
            InitialResponse::spec_decode(bytes).unwrap().spec_encode() == bytes.subrange(0, 2),
    {
        assert(InitialResponse::spec_decode(bytes).unwrap().spec_encode() =~= bytes.subrange(
            0,
            2,
        ));
    }

    /// Truncation: no proper prefix of the bytes of a response decodes; each
    /// is reported as too short.
    pub proof fn lemma_truncated(self, len: int)
        requires
            0 <= len < self.spec_encode().len(),
        ensures
            InitialResponse::spec_decode(self.spec_encode().subrange(0, len)) == Err::<
                InitialResponse,
                RequestError,
            >(RequestError::PacketTooShort),
    {
    }

    /// Encodes the response: exactly two bytes, the version and the code of
    /// the selected method.
    pub fn encode(&self) -> (res: Vec<u8>)
        ensures
            res@ == self.spec_encode(),
    {
        vec![self.version, self.method.code()]
    }

    /// Decodes the response that `bytes` starts with.
    ///
    /// Fails with `PacketTooShort` on fewer than two bytes.
    pub fn decode(bytes: &[u8]) -> (res: Result<InitialResponse, RequestError>)
        ensures
            res == InitialResponse::spec_decode(bytes@),
            res matches Ok(response) ==> response.method.wf(),
    {
        if bytes.len() < 2 {
            Err(RequestError::PacketTooShort)
        } else {
            Ok(InitialResponse { version: bytes[0], method: Method::new(bytes[1]) })
        }
    }
}

/// What a client asks for once it is authenticated.
#[derive(Eq, PartialEq, Debug)]
pub struct Request {
    /// The version byte, as received.
    pub version: u8,
    /// What the client asks for.
    pub command: Command,
    /// Where the client wants to go.
    pub dest_address: Address,
}

/// A request as a mathematical value.
pub struct RequestView {
    /// The version byte.
    pub version: u8,
    /// What the client asks for.
    pub command: Command,
    /// Where the client wants to go.
    pub dest_address: AddressView,
}

impl View for Request {
    type V = RequestView;

    open spec fn view(&self) -> RequestView {
        RequestView {
            version: self.version,
            command: self.command,
            dest_address: self.dest_address@,
        }
    }
}

impl RequestView {
    /// Whether the request can be laid out: its address can be.
    pub open spec fn wf(self) -> bool {
        self.dest_address.wf()
    }

    /// The bytes of the request on the wire. The reserved byte is zero.
    pub open spec fn encode(self) -> Seq<u8> {
        seq![self.version, self.command.spec_code(), 0u8] + self.dest_address.encode()
    }

    /// The request that `bytes` holds, or the reason why it holds none. The
    /// reserved byte is skipped, whatever it is; a command that is not
    /// supported is reported before the address is looked at.
    pub open spec fn decode(bytes: Seq<u8>) -> Result<RequestView, RequestError> {
        if bytes.len() < 2 {
            Err(RequestError::PacketTooShort)
        } else {
            match Command::spec_decode(bytes[1]) {
                Err(error) => Err(error),
                Ok(command) => match AddressView::decode(after_header(bytes)) {
                    Err(error) => Err(error),
                    Ok(dest_address) => Ok(
                        RequestView { version: bytes[0], command, dest_address },
                    ),
                },
            }
        }
    }

    /// Round trip: decoding the bytes of a request gives the request back.
    pub proof fn lemma_decode_encode(self)
        requires
            self.wf(),
        ensures
            RequestView::decode(self.encode()) == Ok::<RequestView, RequestError>(self),
    {
        self.dest_address.lemma_decode_encode();
        assert(after_header(self.encode()) =~= self.dest_address.encode());
    }

    /// Truncation: no proper prefix of the bytes of a request decodes; each
    /// is reported as too short.
    pub proof fn lemma_truncated(self, len: int)
        requires
            self.wf(),
            0 <= len < self.encode().len(),
        ensures
            RequestView::decode(self.encode().subrange(0, len)) == Err::<RequestView, RequestError>(
                RequestError::PacketTooShort,
            ),
    {
        let prefix = self.encode().subrange(0, len);
        if len >= 3 {
            self.dest_address.lemma_truncated(len - 3);
            assert(after_header(prefix) =~= self.dest_address.encode().subrange(0, len - 3));
        }
    }
}

impl Request {
    /// Decodes a request.
    ///
    /// Fails with `PacketTooShort` on fewer than two bytes, then with
    /// `CommandNotSupported` and the code when the second byte is no command
    /// code, then with the error of the address codec on what follows the
    /// reserved third byte.
    pub fn decode(bytes: &[u8]) -> (res: Result<Request, RequestError>)
        ensures
            match res {
                Ok(request) => RequestView::decode(bytes@) == Ok::<RequestView, RequestError>(
                    request@,
                ),
                Err(error) => RequestView::decode(bytes@) == Err::<RequestView, RequestError>(
                    error,
                ),
            },
            res matches Ok(request) ==> request@.wf(),
    {
        if bytes.len() < 2 {
            return Err(RequestError::PacketTooShort);
        }
        let version: u8 = bytes[0];
        let command: Command = Command::decode(bytes[1])?;
        if bytes.len() < 3 {
            return Err(RequestError::PacketTooShort);
        }
        let dest_address: Address = Address::decode(&bytes[3..bytes.len()])?;
        Ok(Request { version, command, dest_address })
    }

    /// Encodes the request: version, command code, a zero byte, and the
    /// destination address.
    pub fn encode(&self) -> (res: Vec<u8>)
        requires
            self@.wf(),
        ensures
            res@ == self@.encode(),
    {
        let mut res: Vec<u8> = vec![self.version, self.command.code(), 0u8];
        let mut address_bytes: Vec<u8> = self.dest_address.encode();
        res.append(&mut address_bytes);
        res
    }
}

/// The outcome that a reply reports.
#[derive(Copy, Clone, Eq, PartialEq, Debug, Hash, Structural)]
pub enum ReplyType {
    Succeeded,
    GeneralFailure,
    ConnectionNotAllowed,
    NetworkUnreachable,
    HostUnreachable,
    ConnectionRefused,
    TTLExpired,
    CommandNotSupported,
    AddressTypeNotSupported,
}

impl ReplyType {
    /// The byte that stands for the reply type on the wire.
    pub open spec fn spec_code(&self) -> u8 {
        match *self {
            ReplyType::Succeeded => 0x00,
            ReplyType::GeneralFailure => 0x01,
            ReplyType::ConnectionNotAllowed => 0x02,
            ReplyType::NetworkUnreachable => 0x03,
            ReplyType::HostUnreachable => 0x04,
            ReplyType::ConnectionRefused => 0x05,
            ReplyType::TTLExpired => 0x06,
            ReplyType::CommandNotSupported => 0x07,
            ReplyType::AddressTypeNotSupported => 0x08,
        }
    }

    /// The reply type that `code` stands for, if it stands for one.
    pub open spec fn spec_new(code: u8) -> Option<ReplyType> {
        if code == 0x00 {
            Some(ReplyType::Succeeded)
        } else if code == 0x01 {
            Some(ReplyType::GeneralFailure)
        } else if code == 0x02 {
            Some(ReplyType::ConnectionNotAllowed)
        } else if code == 0x03 {
            Some(ReplyType::NetworkUnreachable)
        } else if code == 0x04 {
            Some(ReplyType::HostUnreachable)
        } else if code == 0x05 {
            Some(ReplyType::ConnectionRefused)
        } else if code == 0x06 {
            Some(ReplyType::TTLExpired)
        } else if code == 0x07 {
            Some(ReplyType::CommandNotSupported)
        } else if code == 0x08 {
            Some(ReplyType::AddressTypeNotSupported)
        } else {
            None
        }
    }

    /// The mapping between reply types and codes loses nothing: a reply type
    /// is found again from its code, and a code from the reply type it
    /// stands for.
    pub proof fn lemma_code_round_trip(reply: ReplyType, code: u8)
        ensures
            ReplyType::spec_new(reply.spec_code()) == Some(reply),
            ReplyType::spec_new(code) == Some(reply) ==> reply.spec_code() == code,
            ReplyType::spec_new(code) is Some <==> code <= 0x08,
    {
    }

    /// The code of the reply type.
    pub fn code(&self) -> (res: u8)
        ensures
            res == self.spec_code(),
    {
        match *self {
            ReplyType::Succeeded => 0x00,
            ReplyType::GeneralFailure => 0x01,
            ReplyType::ConnectionNotAllowed => 0x02,
            ReplyType::NetworkUnreachable => 0x03,
            ReplyType::HostUnreachable => 0x04,
            ReplyType::ConnectionRefused => 0x05,
            ReplyType::TTLExpired => 0x06,
            ReplyType::CommandNotSupported => 0x07,
            ReplyType::AddressTypeNotSupported => 0x08,
        }
    }

    /// Maps a reply code to its reply type; `None` for any other byte.
    pub fn new(code: u8) -> (res: Option<ReplyType>)
        ensures
            res == ReplyType::spec_new(code),
    {
        match code {
            0x00 => Some(ReplyType::Succeeded),
            0x01 => Some(ReplyType::GeneralFailure),
            0x02 => Some(ReplyType::ConnectionNotAllowed),
            0x03 => Some(ReplyType::NetworkUnreachable),
            0x04 => Some(ReplyType::HostUnreachable),
            0x05 => Some(ReplyType::ConnectionRefused),
            0x06 => Some(ReplyType::TTLExpired),
            0x07 => Some(ReplyType::CommandNotSupported),
            0x08 => Some(ReplyType::AddressTypeNotSupported),
            _ => None,
        }
    }
}

/// The server's answer to a request.
#[derive(Eq, PartialEq, Debug)]
pub struct Reply {
    /// The version byte.
    pub version: u8,
    /// The outcome of the request.
    pub reply: ReplyType,
    /// The address that the server reports to the client.
    pub bound_address: Address,
}

/// A reply as a mathematical value.
pub struct ReplyView {
    /// The version byte.
    pub version: u8,
    /// The outcome of the request.
    pub reply: ReplyType,
    /// The address that the server reports to the client.
    pub bound_address: AddressView,
}

impl View for Reply {
    type V = ReplyView;

    open spec fn view(&self) -> ReplyView {
        ReplyView {
            version: self.version,
            reply: self.reply,
            bound_address: self.bound_address@,
        }
    }
}

impl ReplyView {
    /// Whether the reply can be laid out: its address can be.
    pub open spec fn wf(self) -> bool {
        self.bound_address.wf()
    }

    /// The bytes of the reply on the wire: three header bytes, the third of
    /// them zero, and the address.
    pub open spec fn encode(self) -> Seq<u8> {
        seq![self.version, self.reply.spec_code(), 0u8] + self.bound_address.encode()
    }

    /// The reply that `bytes` holds, or the reason why it holds none. The
    /// reserved byte is skipped, whatever it is; a reply code that is not
    /// known is reported before the address is looked at.
    pub open spec fn decode(bytes: Seq<u8>) -> Result<ReplyView, RequestError> {
        if bytes.len() < 2 {
            Err(RequestError::PacketTooShort)
        } else {
            match ReplyType::spec_new(bytes[1]) {
                None => Err(RequestError::ReplyTypeNotSupported(bytes[1])),
                Some(reply) => match AddressView::decode(after_header(bytes)) {
                    Err(error) => Err(error),
                    Ok(bound_address) => Ok(
                        ReplyView { version: bytes[0], reply, bound_address },
                    ),
                },
            }
        }
    }

    /// The length of a reply is three more than that of its address.
    pub proof fn lemma_encode_len(self)
        ensures
            self.encode().len() == 3 + self.bound_address.encode().len(),
    {
    }

    /// Round trip: decoding the bytes of a reply gives the reply back.
    pub proof fn lemma_decode_encode(self)
        requires
            self.wf(),
        ensures
            ReplyView::decode(self.encode()) == Ok::<ReplyView, RequestError>(self),
    {
        self.bound_address.lemma_decode_encode();
        assert(after_header(self.encode()) =~= self.bound_address.encode());
    }

    /// Truncation: no proper prefix of the bytes of a reply decodes; each is
    /// reported as too short.
    pub proof fn lemma_truncated(self, len: int)
        requires
            self.wf(),
            0 <= len < self.encode().len(),
        ensures
            ReplyView::decode(self.encode().subrange(0, len)) == Err::<ReplyView, RequestError>(
                RequestError::PacketTooShort,
            ),
    {
        let prefix = self.encode().subrange(0, len);
        if len >= 3 {
            self.bound_address.lemma_truncated(len - 3);
            assert(after_header(prefix) =~= self.bound_address.encode().subrange(0, len - 3));
        }
    }
}

impl Reply {
    /// Encodes the reply: version, reply code, a zero byte, and the bound
    /// address.
    pub fn encode(&self) -> (res: Vec<u8>)
        requires
            self@.wf(),
        ensures
            res@ == self@.encode(),
            res@.len() == 3 + self.bound_address@.encode().len(),
    {
        let mut res: Vec<u8> = vec![self.version, self.reply.code(), 0u8];
        let mut address_bytes: Vec<u8> = self.bound_address.encode();
        res.append(&mut address_bytes);
        res
    }

    /// Decodes a reply.
    ///
    /// Fails with `PacketTooShort` on fewer than two bytes, then with
    /// `ReplyTypeNotSupported` and the code when the second byte is no reply
    /// code, then with the error of the address codec on what follows the
    /// reserved third byte.
    pub fn decode(bytes: &[u8]) -> (res: Result<Reply, RequestError>)
        ensures
            match res {
                Ok(reply) => ReplyView::decode(bytes@) == Ok::<ReplyView, RequestError>(reply@),
                Err(error) => ReplyView::decode(bytes@) == Err::<ReplyView, RequestError>(error),
            },
            res matches Ok(reply) ==> reply@.wf(),
    {
        if bytes.len() < 2 {
            return Err(RequestError::PacketTooShort);
        }
        let version: u8 = bytes[0];
        let reply: ReplyType = match ReplyType::new(bytes[1]) {
            Some(reply) => reply,
            None => return Err(RequestError::ReplyTypeNotSupported(bytes[1])),
        };
        if bytes.len() < 3 {
            return Err(RequestError::PacketTooShort);
        }
        let bound_address: Address = Address::decode(&bytes[3..bytes.len()])?;
        Ok(Reply { version, reply, bound_address })
    }
}

} // verus!
