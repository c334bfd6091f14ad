//! The fixed text of an emitted test program. The data of a fixture is
//! written between these fragments.

use vstd::prelude::*;

verus! {

/// Opening of every emitted program: licence header, the consumer's imports
/// and the start of the test function.
pub const PROLOGUE: &'static str = r#"/*++

Licensed under the Apache-2.0 license.

Abstract:

    File contains test cases for LMS signature verification. This file is machine generated.

--*/

#![no_std]
#![no_main]

use caliptra_drivers::{Lms, LmsResult, Sha256};
use caliptra_lms_types::{LmsPublicKey, LmsSignature};
use caliptra_registers::sha256::Sha256Reg;
use caliptra_test_harness::test_suite;

struct LmsTest<'a> {
    test_passed: bool,
    signature: &'a [u8],
}

fn test_lms_random_suite() {
    let mut sha256 = unsafe { Sha256::new(Sha256Reg::new()) };
    "#;

/// Close of every emitted program: the verification call, its assertions
/// and the suite registration.
pub const EPILOGUE: &'static str = r#"
        assert!(head.is_empty());
        let lms_sig = thing2[0];
        let verify_result = Lms::default().verify_lms_signature_generic(
            &mut sha256,
            &MESSAGE,
            &lms_public_key,
            &lms_sig,
        );
        if t.test_passed {
            // if the test is supposed to pass then we better have no errors and a successful verification
            let result = verify_result.unwrap();
            assert_eq!(result, LmsResult::Success)
        } else {
            // if the test is supposed to fail it could be for a number of reasons that could raise a variety of errors
            // if the verification didn't error, then extract the LMS result and ensure it is a failed verification
            if verify_result.is_ok() {
                let result = verify_result.unwrap();
                assert_eq!(result, LmsResult::SigVerifyFailed)
            }
        }
    }
}

test_suite! {
    test_lms_random_suite,
}
"#;

/// Opens the message array; its length follows.
pub const MESSAGE_OPEN: &'static str = "\tconst MESSAGE :[u8; ";

/// Opens the public key array; its length follows.
pub const PUBLIC_KEY_OPEN: &'static str = "\tconst PUBLIC_KEY_BYTES: [u8; ";

/// Stands between an array's length and its items.
pub const ARRAY_VALUE: &'static str = "] = ";

/// Ends an array constant.
pub const ARRAY_CLOSE: &'static str = ";\n";

/// Starts the typed reading of the public key bytes; the word count
/// follows.
pub const PUBLIC_KEY_BIND: &'static str = "\tlet (head, thing1, _tail): (&[u8], &[LmsPublicKey<";

/// Stands between the two mentions of the public key type.
pub const PUBLIC_KEY_ALIGN: &'static str = ">], &[u8]) = unsafe { PUBLIC_KEY_BYTES.align_to::<LmsPublicKey<";

/// Ends the typed reading of the public key bytes.
pub const PUBLIC_KEY_TAKE: &'static str = ">>() };\n    \tassert!(head.is_empty());\n    \tlet lms_public_key = thing1[0];\n";

/// Opens the array of test vectors; their number follows.
pub const VECTORS_OPEN: &'static str = "\tconst TESTS: [LmsTest; ";

/// Stands between the number of test vectors and their records.
pub const VECTORS_VALUE: &'static str = "] = [\n";

/// Opens the record of one test vector; the expected outcome follows.
pub const RECORD_OPEN: &'static str = "\t\tLmsTest{ test_passed: ";

/// Stands between a record's expected outcome and its signature bytes.
pub const RECORD_SIGNATURE: &'static str = ", signature: &";

/// Ends the record of one test vector.
pub const RECORD_CLOSE: &'static str = "},\n";

/// Ends the array of test vectors.
pub const VECTORS_CLOSE: &'static str = "\t];\n";

/// Opens the loop over the test vectors and the typed reading of a
/// signature; the structural parameters follow.
pub const LOOP_OPEN: &'static str = "\tfor t in TESTS {\n        let (head, thing2, _tail): (&[u8], &[LmsSignature<";

/// Stands between two structural parameters.
pub const PARAMETER_SEPARATOR: &'static str = ", ";

/// Stands between the two mentions of the signature type.
pub const SIGNATURE_ALIGN: &'static str = ">], &[u8]) =\n            unsafe { t.signature.align_to::<LmsSignature<";

/// Ends the typed reading of a signature.
pub const SIGNATURE_TAKE: &'static str = ">>() };\n";

} // verus!
