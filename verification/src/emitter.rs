//! Rendering a fixture as the text of a test program for the consumer.

use crate::fixture::{OutputFixture, OutputFixtureView, StructuralParams, TestVector, TestVectorView, vector_views};
use crate::scaffold::{
    ARRAY_CLOSE, ARRAY_VALUE, EPILOGUE, LOOP_OPEN, MESSAGE_OPEN, PARAMETER_SEPARATOR, PROLOGUE,
    PUBLIC_KEY_ALIGN, PUBLIC_KEY_BIND, PUBLIC_KEY_OPEN, PUBLIC_KEY_TAKE, RECORD_CLOSE, RECORD_OPEN,
    RECORD_SIGNATURE, SIGNATURE_ALIGN, SIGNATURE_TAKE, VECTORS_CLOSE, VECTORS_OPEN, VECTORS_VALUE,
};
use crate::text::{append_bool, append_byte_list, append_decimal, bool_word, byte_list, decimal};
use vstd::prelude::*;

verus! {

/// A byte array constant: what opens it, its length, and its items.
pub open spec fn array_text(open: Seq<char>, bytes: Seq<u8>) -> Seq<char> {
    open + decimal(bytes.len()) + ARRAY_VALUE@ + byte_list(bytes) + ARRAY_CLOSE@
}

/// The constant that holds the signed message.
pub open spec fn message_text(message: Seq<u8>) -> Seq<char> {
    array_text(MESSAGE_OPEN@, message)
}

/// The constant that holds the public key, and its reading as the
/// consumer's public key type of `words` words.
pub open spec fn public_key_text(public_key: Seq<u8>, words: u8) -> Seq<char> {
    array_text(PUBLIC_KEY_OPEN@, public_key) + PUBLIC_KEY_BIND@ + decimal(words as nat)
        + PUBLIC_KEY_ALIGN@ + decimal(words as nat) + PUBLIC_KEY_TAKE@
}

/// The record of one test vector: the expected outcome and the signature.
pub open spec fn record_text(vector: TestVectorView) -> Seq<char> {
    RECORD_OPEN@ + bool_word(vector.expect_success) + RECORD_SIGNATURE@ + byte_list(
        vector.signature_bytes,
    ) + RECORD_CLOSE@
}

/// The records of `vectors`, one after the other.
pub open spec fn records_text(vectors: Seq<TestVectorView>) -> Seq<char>
    decreases vectors.len(),
{
    if vectors.len() == 0 {
        Seq::empty()
    } else {
        records_text(vectors.drop_last()) + record_text(vectors.last())
    }
}

/// The constant that holds the test vectors.
pub open spec fn vectors_text(vectors: Seq<TestVectorView>) -> Seq<char> {
    VECTORS_OPEN@ + decimal(vectors.len()) + VECTORS_VALUE@ + records_text(vectors)
        + VECTORS_CLOSE@
}

/// The structural parameters as the consumer's signature type takes them.
pub open spec fn parameters_text(params: StructuralParams) -> Seq<char> {
    decimal(params.words as nat) + PARAMETER_SEPARATOR@ + decimal(params.chains as nat)
        + PARAMETER_SEPARATOR@ + decimal(params.height as nat)
}

/// The head of the loop over the test vectors, which reads each signature
/// as the consumer's signature type.
pub open spec fn loop_text(params: StructuralParams) -> Seq<char> {
    LOOP_OPEN@ + parameters_text(params) + SIGNATURE_ALIGN@ + parameters_text(params)
        + SIGNATURE_TAKE@
}

/// The whole program: the fixed opening, the message, the public key, the
/// test vectors, the loop that verifies each of them, and the fixed close.
pub open spec fn fixture_text(fixture: OutputFixtureView) -> Seq<char> {
    PROLOGUE@ + message_text(fixture.message) + public_key_text(
        fixture.public_key_bytes,
        fixture.structural_params.words,
    ) + vectors_text(fixture.test_vectors) + loop_text(fixture.structural_params) + EPILOGUE@
}

fn append_array(out: &mut String, open: &str, bytes: &[u8])
    ensures
        final(out)@ == old(out)@ + array_text(open@, bytes@),
{
    out.append(open);
    append_decimal(out, bytes.len() as u64);
    out.append(ARRAY_VALUE);
    append_byte_list(out, bytes);
    out.append(ARRAY_CLOSE);
    assert(out@ =~= old(out)@ + array_text(open@, bytes@));
}

fn append_public_key(out: &mut String, public_key: &[u8], words: u8)
    ensures
        final(out)@ == old(out)@ + public_key_text(public_key@, words),
{
    append_array(out, PUBLIC_KEY_OPEN, public_key);
    out.append(PUBLIC_KEY_BIND);
    append_decimal(out, words as u64);
    out.append(PUBLIC_KEY_ALIGN);
    append_decimal(out, words as u64);
    out.append(PUBLIC_KEY_TAKE);
    assert(out@ =~= old(out)@ + public_key_text(public_key@, words));
}

fn append_record(out: &mut String, vector: &TestVector)
    ensures
        final(out)@ == old(out)@ + record_text(vector@),
{
    out.append(RECORD_OPEN);
    append_bool(out, vector.expect_success);
    out.append(RECORD_SIGNATURE);
    append_byte_list(out, vector.signature_bytes.as_slice());
    out.append(RECORD_CLOSE);
    assert(out@ =~= old(out)@ + record_text(vector@));
}

fn append_vectors(out: &mut String, vectors: &Vec<TestVector>)
    ensures
        final(out)@ == old(out)@ + vectors_text(vector_views(vectors@)),
{
    let ghost views = vector_views(vectors@);
    out.append(VECTORS_OPEN);
    append_decimal(out, vectors.len() as u64);
    out.append(VECTORS_VALUE);
    let ghost head = out@;
    let mut i: usize = 0;
    assert(out@ =~= head + records_text(views.take(0)));
    while i < vectors.len()
        invariant
            i <= vectors@.len(),
            views == vector_views(vectors@),
            out@ == head + records_text(views.take(i as int)),
        decreases vectors@.len() - i,
    {
        append_record(out, &vectors[i]);
        proof {
            let next = views.take(i + 1);
            assert(next.drop_last() =~= views.take(i as int));
            assert(next.last() == vectors@[i as int]@);
            assert(out@ =~= head + records_text(next));
        }
        i += 1;
    }
    assert(views.take(i as int) =~= views);
    out.append(VECTORS_CLOSE);
    assert(out@ =~= old(out)@ + vectors_text(views));
}

fn append_parameters(out: &mut String, params: &StructuralParams)
    ensures
        final(out)@ == old(out)@ + parameters_text(*params),
{
    append_decimal(out, params.words as u64);
    out.append(PARAMETER_SEPARATOR);
    append_decimal(out, params.chains as u64);
    out.append(PARAMETER_SEPARATOR);
    append_decimal(out, params.height as u64);
    assert(out@ =~= old(out)@ + parameters_text(*params));
}

fn append_loop(out: &mut String, params: &StructuralParams)
    ensures
        final(out)@ == old(out)@ + loop_text(*params),
{
    out.append(LOOP_OPEN);
    append_parameters(out, params);
    out.append(SIGNATURE_ALIGN);
    append_parameters(out, params);
    out.append(SIGNATURE_TAKE);
    assert(out@ =~= old(out)@ + loop_text(*params));
}

/// Renders `fixture` as the text of the test program.
pub fn render_fixture(fixture: &OutputFixture) -> (text: String)
    ensures
        text@ == fixture_text(fixture@),
{
    let mut text = String::new();
    text.append(PROLOGUE);
    append_array(&mut text, MESSAGE_OPEN, fixture.message.as_slice());
    append_public_key(
        &mut text,
        fixture.public_key_bytes.as_slice(),
        fixture.structural_params.words,
    );
    append_vectors(&mut text, &fixture.test_vectors);
    append_loop(&mut text, &fixture.structural_params);
    text.append(EPILOGUE);
    assert(text@ =~= fixture_text(fixture@));
    text
}

} // verus!
