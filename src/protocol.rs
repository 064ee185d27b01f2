use vstd::prelude::*;

verus! {

/// How many bytes the master reads from a connection before it answers.
pub const READ_BUFFER_LEN: usize = 1024;

/// The registration a worker sends: the ASCII bytes `register`, unframed.
pub open spec fn register_bytes() -> Seq<u8> {
    seq![0x72u8, 0x65u8, 0x67u8, 0x69u8, 0x73u8, 0x74u8, 0x65u8, 0x72u8]
}

/// The acknowledgement the master writes back: the ASCII bytes `ok\n`.
pub open spec fn ack_bytes() -> Seq<u8> {
    seq![0x6fu8, 0x6bu8, 0x0au8]
}

/// The bytes of a registration, as they go on the wire.
pub fn registration_payload() -> (r: Vec<u8>)
    ensures
        r@ == register_bytes(),
        r@.len() == 8,
{
    let r: Vec<u8> = vec![0x72u8, 0x65u8, 0x67u8, 0x69u8, 0x73u8, 0x74u8, 0x65u8, 0x72u8];
    assert(r@ =~= register_bytes());
    r
}

/// The bytes of the master's acknowledgement.
pub fn ack_payload() -> (r: Vec<u8>)
    ensures
        r@ == ack_bytes(),
        r@.len() == 3,
{
    let r: Vec<u8> = vec![0x6fu8, 0x6bu8, 0x0au8];
    assert(r@ =~= ack_bytes());
    r
}

/// What the master writes back after its single read on a connection.
/// `bytes_read` is `None` when the read failed. Only a read of at least one
/// byte is answered, with `ok\n`; what was read is never looked at.
pub fn reply_to_read(bytes_read: Option<usize>) -> (r: Option<Vec<u8>>)
    ensures
        r.is_some() <==> (bytes_read matches Some(n) && n > 0),
        r matches Some(b) ==> b@ == ack_bytes(),
{
    match bytes_read {
        Some(n) => {
            if n > 0 {
                Some(ack_payload())
            } else {
                None
            }
        },
        None => None,
    }
}

} // verus!
