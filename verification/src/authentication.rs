//! Authentication methods, as the client proposes them and the server
//! selects one.

use vstd::prelude::*;

verus! {

/// An authentication method.
#[derive(Copy, Clone, Eq, PartialEq, Debug, Structural)]
pub enum Method {
    /// The client need not authenticate.
    NoAuthenticationRequired,
    /// A method that this crate knows only by its code.
    UnknownMethod(u8),
    /// The server's answer when it accepts none of the proposed methods.
    NoAcceptableMethods,
}

impl Method {
    /// The method that `code` stands for.
    pub open spec fn spec_new(code: u8) -> Method {
        if code == 0x00 {
            Method::NoAuthenticationRequired
        } else if code == 0xFF {
            Method::NoAcceptableMethods
        } else {
            Method::UnknownMethod(code)
        }
    }

    /// The byte that stands for the method on the wire.
    pub open spec fn spec_code(&self) -> u8 {
        match *self {
            Method::NoAuthenticationRequired => 0x00,
            Method::UnknownMethod(code) => code,
            Method::NoAcceptableMethods => 0xFF,
        }
    }

    /// Whether the method is the one that stands for its code: an
    /// `UnknownMethod` holds a code that no other variant has.
    pub open spec fn wf(&self) -> bool {
        *self matches Method::UnknownMethod(code) ==> code != 0x00 && code != 0xFF
    }

    /// Whether the server may select the method for a client: it is neither
    /// the refusal nor a method known only by its code.
    pub open spec fn spec_is_acceptable(&self) -> bool {
        !(*self is NoAcceptableMethods) && !(*self is UnknownMethod)
    }

    /// Every byte is the code of the method it stands for.
    pub proof fn lemma_code_of_new(code: u8)
        ensures
            Method::spec_new(code).spec_code() == code,
            Method::spec_new(code).wf(),
    {
    }

    /// A well-formed method is the one that its code stands for.
    pub proof fn lemma_new_of_code(method: Method)
        requires
            method.wf(),
        ensures
            Method::spec_new(method.spec_code()) == method,
    {
    }

    /// Maps a method code to its method. No byte is refused, and the method
    /// keeps the byte: its code is `code` again.
    pub fn new(code: u8) -> (res: Method)
        ensures
            res == Method::spec_new(code),
            res.spec_code() == code,
            res.wf(),
    {
        match code {
            0x00 => Method::NoAuthenticationRequired,
            0xFF => Method::NoAcceptableMethods,
            _ => Method::UnknownMethod(code),
        }
    }

    /// Whether the server may select the method for a client.
    #[verifier::when_used_as_spec(spec_is_acceptable)]
    pub fn is_acceptable(&self) -> (res: bool)
        ensures
            res == self.spec_is_acceptable(),
    {
        match *self {
            Method::NoAuthenticationRequired => true,
            Method::UnknownMethod(_) => false,
            Method::NoAcceptableMethods => false,
        }
    }

    /// The code of the method.
    pub fn code(&self) -> (res: u8)
        ensures
            res == self.spec_code(),
    {
        match *self {
            Method::NoAuthenticationRequired => 0,
            Method::UnknownMethod(code) => code,
            Method::NoAcceptableMethods => 0xFF,
        }
    }
}

} // verus!
