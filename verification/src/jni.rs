//! Result codes of the runtime's native embedding interface, and the error
//! type that carries one of them.

use vstd::prelude::*;
use crate::text::{i32_to_string, int_dec_seq};

verus! {

/// The runtime reported success.
pub const JNI_OK: i32 = 0;
/// Unspecified failure.
pub const JNI_ERR: i32 = -1;
/// The calling thread is not attached to a VM.
pub const JNI_EDETACHED: i32 = -2;
/// The requested interface version is not supported.
pub const JNI_EVERSION: i32 = -3;
/// The runtime ran out of memory.
pub const JNI_ENOMEM: i32 = -4;
/// A VM instance already exists in this process.
pub const JNI_EEXIST: i32 = -5;
/// Invalid arguments.
pub const JNI_EINVAL: i32 = -6;

/// The interface version this crate requests when creating a VM.
pub const JNI_VERSION_1_6: i32 = 0x0001_0006;

/// A failure code returned by one of the runtime's native entry points.
#[derive(Clone, Copy, Debug, PartialEq, Eq, Structural)]
pub struct JniError {
    pub code: i32,
}

impl JniError {
    /// Wrap a raw result code.
    pub fn new(code: i32) -> (r: JniError)
        ensures
            r.code == code,
    {
        JniError { code }
    }

    /// The name of an unrecognized code: the code itself in decimal,
    /// marked as unknown.
    pub open spec fn unknown_code_seq(code: int) -> Seq<char> {
        "JNI_??? ("@ + int_dec_seq(code) + ")"@
    }

    /// The symbolic name of the carried code, or, for an unrecognized one,
    /// the code itself marked as unknown.
    pub fn describe(&self) -> (r: String)
        ensures
            self.code == JNI_OK ==> r@ == "JNI_OK"@,
            self.code == JNI_EDETACHED ==> r@ == "JNI_EDETACHED"@,
            self.code == JNI_EVERSION ==> r@ == "JNI_EVERSION"@,
            self.code == JNI_ENOMEM ==> r@ == "JNI_ENOMEM"@,
            self.code == JNI_EEXIST ==> r@ == "JNI_EEXIST"@,
            self.code == JNI_EINVAL ==> r@ == "JNI_EINVAL"@,
            self.code != JNI_OK && self.code != JNI_EDETACHED && self.code != JNI_EVERSION
                && self.code != JNI_ENOMEM && self.code != JNI_EEXIST && self.code != JNI_EINVAL
                ==> r@ == JniError::unknown_code_seq(self.code as int),
    {
        if self.code == JNI_OK {
            String::from_str("JNI_OK")
        } else if self.code == JNI_EDETACHED {
            String::from_str("JNI_EDETACHED")
        } else if self.code == JNI_EVERSION {
            String::from_str("JNI_EVERSION")
        } else if self.code == JNI_ENOMEM {
            String::from_str("JNI_ENOMEM")
        } else if self.code == JNI_EEXIST {
            String::from_str("JNI_EEXIST")
        } else if self.code == JNI_EINVAL {
            String::from_str("JNI_EINVAL")
        } else {
            let mut m = String::from_str("JNI_??? (");
            m.append(i32_to_string(self.code).as_str());
            m.append(")");
            proof {
                assert(m@ =~= JniError::unknown_code_seq(self.code as int));
            }
            m
        }
    }
}

} // verus!
