//! The renewal capability the server invokes: a small interface with a
//! registry mapping a configured backend name to a constructor.
//!
//! The router-specific backends (web-UI logins, HTTP scraping, local
//! commands) live outside the library and implement [`Renewer`] there; the
//! library itself provides the interface, the registry, and the one backend
//! that needs no transport at all.

pub mod dummy;

use vstd::prelude::*;
use vstd::slice::*;
use vstd::string::StringSliceAdditionalSpecFns;
use vstd::utf8::encode_utf8_decode_utf8;

verus! {

/// A failure of the renewal layer. The causes reported by the transport are
/// carried as plain text.
#[derive(Debug, Clone, PartialEq, Eq)]
pub enum Error {
    /// A failure of the renewer itself.
    Generic(&'static str),
    /// An HTTP exchange with the router failed.
    Http(String),
    /// The renewer's configuration is missing or invalid.
    Config(String),
}

/// The capability that performs the actual IP renewal: prepared once at
/// server start, then invoked exactly once per granted `FreshIPRequest`.
pub trait Renewer {
    /// Prepares the renewer (a login, a reachability check). Most backends
    /// need none.
    fn init(&mut self) -> Result<(), Error> {
        Ok(())
    }

    /// Performs the renewal action.
    fn renew_ip(&mut self) -> Result<(), Error>;
}

/// Whether two string slices hold the same characters.
fn str_eq(a: &str, b: &str) -> (r: bool)
    ensures
        r == (a@ == b@),
{
    proof {
        broadcast use encode_utf8_decode_utf8;

    }
    let ab = a.as_bytes();
    let bb = b.as_bytes();
    if ab.len() != bb.len() {
        proof {
            assert(a@ != b@);
        }
        return false;
    }
    let mut i: usize = 0;
    while i < ab.len()
        invariant
            ab@ == a.spec_bytes(),
            bb@ == b.spec_bytes(),
            ab@.len() == bb@.len(),
            0 <= i <= ab@.len(),
            forall|j: int| 0 <= j < i ==> ab@[j] == bb@[j],
        decreases ab@.len() - i,
    {
        if *slice_index_get(ab, i) != *slice_index_get(bb, i) {
            proof {
                assert(a.spec_bytes() != b.spec_bytes());
                assert(a@ != b@);
            }
            return false;
        }
        i = i + 1;
    }
    proof {
        assert(ab@ =~= bb@);
        encode_utf8_decode_utf8(a@);
        encode_utf8_decode_utf8(b@);
        assert(a@ == b@);
    }
    true
}

/// Constructs the renewer registered under `name`.
///
/// Only the backend that the library itself carries is constructed here;
/// any other name is reported as not enabled, as the transport layer around
/// the library may register further backends of its own.
pub fn get_renewer(name: &str) -> (r: Result<dummy::Renewer, Error>)
    ensures
        name@ == "dummy"@ ==> r is Ok,
        name@ != "dummy"@ ==> r == Err::<dummy::Renewer, Error>(
            Error::Generic("invalid renewer name - if applicable, ensure this renewer is enabled"),
        ),
{
    if str_eq(name, "dummy") {
        Ok(dummy::Renewer {  })
    } else {
        Err(Error::Generic("invalid renewer name - if applicable, ensure this renewer is enabled"))
    }
}

} // verus!
