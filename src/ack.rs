use vstd::prelude::*;

verus! {

/// The standard success acknowledgement that carries `data`.
pub uninterp spec fn std_ack_success(data: Seq<u8>) -> Seq<u8>;

/// The standard failure acknowledgement that carries the text `reason`.
pub uninterp spec fn std_ack_error(reason: Seq<char>) -> Seq<u8>;

/// What the standard acknowledgement decoder makes of `bytes`: `Some(true)`
/// for a success, `Some(false)` for a failure, `None` when they are no
/// acknowledgement.
pub uninterp spec fn std_ack_outcome(bytes: Seq<u8>) -> Option<bool>;

/// Relies on `cosmwasm_std::StdAck::to_binary` on a `StdAck::Success`: the
/// JSON envelope of a success acknowledgement, a function of `data` alone.
#[verifier::external_body]
pub(crate) fn encode_success_ack(data: &Vec<u8>) -> (r: Vec<u8>)
    ensures
        r@ == std_ack_success(data@),
{
    cosmwasm_std::StdAck::Success(cosmwasm_std::Binary::from(data.clone())).to_binary().to_vec()
}

/// Relies on `cosmwasm_std::StdAck::to_binary` on a `StdAck::Error`: the
/// JSON envelope of a failure acknowledgement, a function of `reason` alone.
#[verifier::external_body]
pub(crate) fn encode_error_ack(reason: &String) -> (r: Vec<u8>)
    ensures
        r@ == std_ack_error(reason@),
{
    cosmwasm_std::StdAck::Error(reason.clone()).to_binary().to_vec()
}

/// Relies on `cosmwasm_std::from_json::<StdAck>`: it parses the JSON envelope
/// and says which variant it holds, as a function of the bytes alone.
#[verifier::external_body]
pub(crate) fn decode_ack(bytes: &Vec<u8>) -> (r: Option<bool>)
    ensures
        r == std_ack_outcome(bytes@),
{
    match cosmwasm_std::from_json::<cosmwasm_std::StdAck>(bytes.as_slice()) {
        Ok(cosmwasm_std::StdAck::Success(_)) => Some(true),
        Ok(cosmwasm_std::StdAck::Error(_)) => Some(false),
        Err(_) => None,
    }
}

} // verus!
