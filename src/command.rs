use vstd::prelude::*;

use crate::driver::SfmUart;
use crate::error::SfmError;

verus! {

/// An outgoing command frame, also used as the scratch buffer for incoming bytes.
pub type CommandBuffer = [u8; 8];

/// XOR of the bytes at indices 1 through 5: the checksum of a frame.
pub open spec fn checksum_of(b: Seq<u8>) -> u8
    recommends
        b.len() >= 6,
{
    b[1] ^ b[2] ^ b[3] ^ b[4] ^ b[5]
}

/// XOR of the bytes at indices 1 up to (not including) `k`.
spec fn xor_from_one(b: Seq<u8>, k: int) -> u8
    decreases k,
{
    if k <= 1 {
        0u8
    } else {
        xor_from_one(b, k - 1) ^ b[k - 1]
    }
}

/// Computes the checksum of a frame: the XOR of its bytes 1 through 5.
pub fn get_check_sum(buffer: &CommandBuffer) -> (r: u8)
    ensures
        r == checksum_of(buffer@),
{
    let mut result: u8 = 0x00;
    let mut i: usize = 1;
    while i <= 5
        invariant
            1 <= i <= 6,
            result == xor_from_one(buffer@, i as int),
        decreases 6 - i,
    {
        result = result ^ buffer[i];
        i = i + 1;
    }
    proof {
        reveal_with_fuel(xor_from_one, 6);
        let x = buffer@[1];
        assert(0u8 ^ x == x) by (bit_vector);
    }
    result
}

/// The frame that carries `command` with parameters `params`: byte 1 is the
/// command, bytes 2 to 4 the parameters, byte 6 the checksum, the rest zero.
pub open spec fn command_frame(command: u8, params: Seq<u8>) -> Seq<u8>
    recommends
        params.len() == 3,
{
    seq![
        0u8,
        command,
        params[0],
        params[1],
        params[2],
        0u8,
        command ^ params[0] ^ params[1] ^ params[2] ^ 0u8,
        0u8,
    ]
}

/// Builds the 8-byte frame for `command` and its three parameter bytes.
pub fn build_command(command: u8, params: [u8; 3]) -> (r: CommandBuffer)
    ensures
        r@ == command_frame(command, params@),
        r[0] == 0 && r[5] == 0 && r[7] == 0,
        r[1] == command && r[2] == params[0] && r[3] == params[1] && r[4] == params[2],
        r[6] == checksum_of(r@),
{
    let mut command_buffer: CommandBuffer = [0u8; 8];
    command_buffer[1] = command;
    command_buffer[2] = params[0];
    command_buffer[3] = params[1];
    command_buffer[4] = params[2];
    command_buffer[6] = get_check_sum(&command_buffer);
    assert(command_buffer@ =~= command_frame(command, params@));
    command_buffer
}

/// The checksum of a frame depends on its bytes 1 through 5 alone: frames
/// that agree there have the same checksum, whatever their other bytes hold.
pub proof fn lemma_checksum_ignores_other_bytes(a: Seq<u8>, b: Seq<u8>)
    requires
        a.len() == 8,
        b.len() == 8,
        forall|i: int| 1 <= i <= 5 ==> a[i] == b[i],
    ensures
        checksum_of(a) == checksum_of(b),
{
    assert(a[1] == b[1] && a[2] == b[2] && a[3] == b[3] && a[4] == b[4] && a[5] == b[5]);
}

/// XOR of five bytes is the same in every order.
proof fn lemma_xor5_any_order(x1: u8, x2: u8, x3: u8, x4: u8, x5: u8)
    ensures
        x1 ^ x2 ^ x3 ^ x5 ^ x4 == x1 ^ x2 ^ x3 ^ x4 ^ x5,
        x1 ^ x2 ^ x4 ^ x3 ^ x5 == x1 ^ x2 ^ x3 ^ x4 ^ x5,
        x1 ^ x2 ^ x4 ^ x5 ^ x3 == x1 ^ x2 ^ x3 ^ x4 ^ x5,
        x1 ^ x2 ^ x5 ^ x3 ^ x4 == x1 ^ x2 ^ x3 ^ x4 ^ x5,
        x1 ^ x2 ^ x5 ^ x4 ^ x3 == x1 ^ x2 ^ x3 ^ x4 ^ x5,
        x1 ^ x3 ^ x2 ^ x4 ^ x5 == x1 ^ x2 ^ x3 ^ x4 ^ x5,
        x1 ^ x3 ^ x2 ^ x5 ^ x4 == x1 ^ x2 ^ x3 ^ x4 ^ x5,
        x1 ^ x3 ^ x4 ^ x2 ^ x5 == x1 ^ x2 ^ x3 ^ x4 ^ x5,
        x1 ^ x3 ^ x4 ^ x5 ^ x2 == x1 ^ x2 ^ x3 ^ x4 ^ x5,
        x1 ^ x3 ^ x5 ^ x2 ^ x4 == x1 ^ x2 ^ x3 ^ x4 ^ x5,
        x1 ^ x3 ^ x5 ^ x4 ^ x2 == x1 ^ x2 ^ x3 ^ x4 ^ x5,
        x1 ^ x4 ^ x2 ^ x3 ^ x5 == x1 ^ x2 ^ x3 ^ x4 ^ x5,
        x1 ^ x4 ^ x2 ^ x5 ^ x3 == x1 ^ x2 ^ x3 ^ x4 ^ x5,
        x1 ^ x4 ^ x3 ^ x2 ^ x5 == x1 ^ x2 ^ x3 ^ x4 ^ x5,
        x1 ^ x4 ^ x3 ^ x5 ^ x2 == x1 ^ x2 ^ x3 ^ x4 ^ x5,
        x1 ^ x4 ^ x5 ^ x2 ^ x3 == x1 ^ x2 ^ x3 ^ x4 ^ x5,
        x1 ^ x4 ^ x5 ^ x3 ^ x2 == x1 ^ x2 ^ x3 ^ x4 ^ x5,
        x1 ^ x5 ^ x2 ^ x3 ^ x4 == x1 ^ x2 ^ x3 ^ x4 ^ x5,
        x1 ^ x5 ^ x2 ^ x4 ^ x3 == x1 ^ x2 ^ x3 ^ x4 ^ x5,
        x1 ^ x5 ^ x3 ^ x2 ^ x4 == x1 ^ x2 ^ x3 ^ x4 ^ x5,
        x1 ^ x5 ^ x3 ^ x4 ^ x2 == x1 ^ x2 ^ x3 ^ x4 ^ x5,
        x1 ^ x5 ^ x4 ^ x2 ^ x3 == x1 ^ x2 ^ x3 ^ x4 ^ x5,
        x1 ^ x5 ^ x4 ^ x3 ^ x2 == x1 ^ x2 ^ x3 ^ x4 ^ x5,
        x2 ^ x1 ^ x3 ^ x4 ^ x5 == x1 ^ x2 ^ x3 ^ x4 ^ x5,
        x2 ^ x1 ^ x3 ^ x5 ^ x4 == x1 ^ x2 ^ x3 ^ x4 ^ x5,
        x2 ^ x1 ^ x4 ^ x3 ^ x5 == x1 ^ x2 ^ x3 ^ x4 ^ x5,
        x2 ^ x1 ^ x4 ^ x5 ^ x3 == x1 ^ x2 ^ x3 ^ x4 ^ x5,
        x2 ^ x1 ^ x5 ^ x3 ^ x4 == x1 ^ x2 ^ x3 ^ x4 ^ x5,
        x2 ^ x1 ^ x5 ^ x4 ^ x3 == x1 ^ x2 ^ x3 ^ x4 ^ x5,
        x2 ^ x3 ^ x1 ^ x4 ^ x5 == x1 ^ x2 ^ x3 ^ x4 ^ x5,
        x2 ^ x3 ^ x1 ^ x5 ^ x4 == x1 ^ x2 ^ x3 ^ x4 ^ x5,
        x2 ^ x3 ^ x4 ^ x1 ^ x5 == x1 ^ x2 ^ x3 ^ x4 ^ x5,
        x2 ^ x3 ^ x4 ^ x5 ^ x1 == x1 ^ x2 ^ x3 ^ x4 ^ x5,
        x2 ^ x3 ^ x5 ^ x1 ^ x4 == x1 ^ x2 ^ x3 ^ x4 ^ x5,
        x2 ^ x3 ^ x5 ^ x4 ^ x1 == x1 ^ x2 ^ x3 ^ x4 ^ x5,
        x2 ^ x4 ^ x1 ^ x3 ^ x5 == x1 ^ x2 ^ x3 ^ x4 ^ x5,
        x2 ^ x4 ^ x1 ^ x5 ^ x3 == x1 ^ x2 ^ x3 ^ x4 ^ x5,
        x2 ^ x4 ^ x3 ^ x1 ^ x5 == x1 ^ x2 ^ x3 ^ x4 ^ x5,
        x2 ^ x4 ^ x3 ^ x5 ^ x1 == x1 ^ x2 ^ x3 ^ x4 ^ x5,
        x2 ^ x4 ^ x5 ^ x1 ^ x3 == x1 ^ x2 ^ x3 ^ x4 ^ x5,
        x2 ^ x4 ^ x5 ^ x3 ^ x1 == x1 ^ x2 ^ x3 ^ x4 ^ x5,
        x2 ^ x5 ^ x1 ^ x3 ^ x4 == x1 ^ x2 ^ x3 ^ x4 ^ x5,
        x2 ^ x5 ^ x1 ^ x4 ^ x3 == x1 ^ x2 ^ x3 ^ x4 ^ x5,
        x2 ^ x5 ^ x3 ^ x1 ^ x4 == x1 ^ x2 ^ x3 ^ x4 ^ x5,
        x2 ^ x5 ^ x3 ^ x4 ^ x1 == x1 ^ x2 ^ x3 ^ x4 ^ x5,
        x2 ^ x5 ^ x4 ^ x1 ^ x3 == x1 ^ x2 ^ x3 ^ x4 ^ x5,
        x2 ^ x5 ^ x4 ^ x3 ^ x1 == x1 ^ x2 ^ x3 ^ x4 ^ x5,
        x3 ^ x1 ^ x2 ^ x4 ^ x5 == x1 ^ x2 ^ x3 ^ x4 ^ x5,
        x3 ^ x1 ^ x2 ^ x5 ^ x4 == x1 ^ x2 ^ x3 ^ x4 ^ x5,
        x3 ^ x1 ^ x4 ^ x2 ^ x5 == x1 ^ x2 ^ x3 ^ x4 ^ x5,
        x3 ^ x1 ^ x4 ^ x5 ^ x2 == x1 ^ x2 ^ x3 ^ x4 ^ x5,
        x3 ^ x1 ^ x5 ^ x2 ^ x4 == x1 ^ x2 ^ x3 ^ x4 ^ x5,
        x3 ^ x1 ^ x5 ^ x4 ^ x2 == x1 ^ x2 ^ x3 ^ x4 ^ x5,
        x3 ^ x2 ^ x1 ^ x4 ^ x5 == x1 ^ x2 ^ x3 ^ x4 ^ x5,
        x3 ^ x2 ^ x1 ^ x5 ^ x4 == x1 ^ x2 ^ x3 ^ x4 ^ x5,
        x3 ^ x2 ^ x4 ^ x1 ^ x5 == x1 ^ x2 ^ x3 ^ x4 ^ x5,
        x3 ^ x2 ^ x4 ^ x5 ^ x1 == x1 ^ x2 ^ x3 ^ x4 ^ x5,
        x3 ^ x2 ^ x5 ^ x1 ^ x4 == x1 ^ x2 ^ x3 ^ x4 ^ x5,
        x3 ^ x2 ^ x5 ^ x4 ^ x1 == x1 ^ x2 ^ x3 ^ x4 ^ x5,
        x3 ^ x4 ^ x1 ^ x2 ^ x5 == x1 ^ x2 ^ x3 ^ x4 ^ x5,
        x3 ^ x4 ^ x1 ^ x5 ^ x2 == x1 ^ x2 ^ x3 ^ x4 ^ x5,
        x3 ^ x4 ^ x2 ^ x1 ^ x5 == x1 ^ x2 ^ x3 ^ x4 ^ x5,
        x3 ^ x4 ^ x2 ^ x5 ^ x1 == x1 ^ x2 ^ x3 ^ x4 ^ x5,
        x3 ^ x4 ^ x5 ^ x1 ^ x2 == x1 ^ x2 ^ x3 ^ x4 ^ x5,
        x3 ^ x4 ^ x5 ^ x2 ^ x1 == x1 ^ x2 ^ x3 ^ x4 ^ x5,
        x3 ^ x5 ^ x1 ^ x2 ^ x4 == x1 ^ x2 ^ x3 ^ x4 ^ x5,
        x3 ^ x5 ^ x1 ^ x4 ^ x2 == x1 ^ x2 ^ x3 ^ x4 ^ x5,
        x3 ^ x5 ^ x2 ^ x1 ^ x4 == x1 ^ x2 ^ x3 ^ x4 ^ x5,
        x3 ^ x5 ^ x2 ^ x4 ^ x1 == x1 ^ x2 ^ x3 ^ x4 ^ x5,
        x3 ^ x5 ^ x4 ^ x1 ^ x2 == x1 ^ x2 ^ x3 ^ x4 ^ x5,
        x3 ^ x5 ^ x4 ^ x2 ^ x1 == x1 ^ x2 ^ x3 ^ x4 ^ x5,
        x4 ^ x1 ^ x2 ^ x3 ^ x5 == x1 ^ x2 ^ x3 ^ x4 ^ x5,
        x4 ^ x1 ^ x2 ^ x5 ^ x3 == x1 ^ x2 ^ x3 ^ x4 ^ x5,
        x4 ^ x1 ^ x3 ^ x2 ^ x5 == x1 ^ x2 ^ x3 ^ x4 ^ x5,
        x4 ^ x1 ^ x3 ^ x5 ^ x2 == x1 ^ x2 ^ x3 ^ x4 ^ x5,
        x4 ^ x1 ^ x5 ^ x2 ^ x3 == x1 ^ x2 ^ x3 ^ x4 ^ x5,
        x4 ^ x1 ^ x5 ^ x3 ^ x2 == x1 ^ x2 ^ x3 ^ x4 ^ x5,
        x4 ^ x2 ^ x1 ^ x3 ^ x5 == x1 ^ x2 ^ x3 ^ x4 ^ x5,
        x4 ^ x2 ^ x1 ^ x5 ^ x3 == x1 ^ x2 ^ x3 ^ x4 ^ x5,
        x4 ^ x2 ^ x3 ^ x1 ^ x5 == x1 ^ x2 ^ x3 ^ x4 ^ x5,
        x4 ^ x2 ^ x3 ^ x5 ^ x1 == x1 ^ x2 ^ x3 ^ x4 ^ x5,
        x4 ^ x2 ^ x5 ^ x1 ^ x3 == x1 ^ x2 ^ x3 ^ x4 ^ x5,
        x4 ^ x2 ^ x5 ^ x3 ^ x1 == x1 ^ x2 ^ x3 ^ x4 ^ x5,
        x4 ^ x3 ^ x1 ^ x2 ^ x5 == x1 ^ x2 ^ x3 ^ x4 ^ x5,
        x4 ^ x3 ^ x1 ^ x5 ^ x2 == x1 ^ x2 ^ x3 ^ x4 ^ x5,
        x4 ^ x3 ^ x2 ^ x1 ^ x5 == x1 ^ x2 ^ x3 ^ x4 ^ x5,
        x4 ^ x3 ^ x2 ^ x5 ^ x1 == x1 ^ x2 ^ x3 ^ x4 ^ x5,
        x4 ^ x3 ^ x5 ^ x1 ^ x2 == x1 ^ x2 ^ x3 ^ x4 ^ x5,
        x4 ^ x3 ^ x5 ^ x2 ^ x1 == x1 ^ x2 ^ x3 ^ x4 ^ x5,
        x4 ^ x5 ^ x1 ^ x2 ^ x3 == x1 ^ x2 ^ x3 ^ x4 ^ x5,
        x4 ^ x5 ^ x1 ^ x3 ^ x2 == x1 ^ x2 ^ x3 ^ x4 ^ x5,
        x4 ^ x5 ^ x2 ^ x1 ^ x3 == x1 ^ x2 ^ x3 ^ x4 ^ x5,
        x4 ^ x5 ^ x2 ^ x3 ^ x1 == x1 ^ x2 ^ x3 ^ x4 ^ x5,
        x4 ^ x5 ^ x3 ^ x1 ^ x2 == x1 ^ x2 ^ x3 ^ x4 ^ x5,
        x4 ^ x5 ^ x3 ^ x2 ^ x1 == x1 ^ x2 ^ x3 ^ x4 ^ x5,
        x5 ^ x1 ^ x2 ^ x3 ^ x4 == x1 ^ x2 ^ x3 ^ x4 ^ x5,
        x5 ^ x1 ^ x2 ^ x4 ^ x3 == x1 ^ x2 ^ x3 ^ x4 ^ x5,
        x5 ^ x1 ^ x3 ^ x2 ^ x4 == x1 ^ x2 ^ x3 ^ x4 ^ x5,
        x5 ^ x1 ^ x3 ^ x4 ^ x2 == x1 ^ x2 ^ x3 ^ x4 ^ x5,
        x5 ^ x1 ^ x4 ^ x2 ^ x3 == x1 ^ x2 ^ x3 ^ x4 ^ x5,
        x5 ^ x1 ^ x4 ^ x3 ^ x2 == x1 ^ x2 ^ x3 ^ x4 ^ x5,
        x5 ^ x2 ^ x1 ^ x3 ^ x4 == x1 ^ x2 ^ x3 ^ x4 ^ x5,
        x5 ^ x2 ^ x1 ^ x4 ^ x3 == x1 ^ x2 ^ x3 ^ x4 ^ x5,
        x5 ^ x2 ^ x3 ^ x1 ^ x4 == x1 ^ x2 ^ x3 ^ x4 ^ x5,
        x5 ^ x2 ^ x3 ^ x4 ^ x1 == x1 ^ x2 ^ x3 ^ x4 ^ x5,
        x5 ^ x2 ^ x4 ^ x1 ^ x3 == x1 ^ x2 ^ x3 ^ x4 ^ x5,
        x5 ^ x2 ^ x4 ^ x3 ^ x1 == x1 ^ x2 ^ x3 ^ x4 ^ x5,
        x5 ^ x3 ^ x1 ^ x2 ^ x4 == x1 ^ x2 ^ x3 ^ x4 ^ x5,
        x5 ^ x3 ^ x1 ^ x4 ^ x2 == x1 ^ x2 ^ x3 ^ x4 ^ x5,
        x5 ^ x3 ^ x2 ^ x1 ^ x4 == x1 ^ x2 ^ x3 ^ x4 ^ x5,
        x5 ^ x3 ^ x2 ^ x4 ^ x1 == x1 ^ x2 ^ x3 ^ x4 ^ x5,
        x5 ^ x3 ^ x4 ^ x1 ^ x2 == x1 ^ x2 ^ x3 ^ x4 ^ x5,
        x5 ^ x3 ^ x4 ^ x2 ^ x1 == x1 ^ x2 ^ x3 ^ x4 ^ x5,
        x5 ^ x4 ^ x1 ^ x2 ^ x3 == x1 ^ x2 ^ x3 ^ x4 ^ x5,
        x5 ^ x4 ^ x1 ^ x3 ^ x2 == x1 ^ x2 ^ x3 ^ x4 ^ x5,
        x5 ^ x4 ^ x2 ^ x1 ^ x3 == x1 ^ x2 ^ x3 ^ x4 ^ x5,
        x5 ^ x4 ^ x2 ^ x3 ^ x1 == x1 ^ x2 ^ x3 ^ x4 ^ x5,
        x5 ^ x4 ^ x3 ^ x1 ^ x2 == x1 ^ x2 ^ x3 ^ x4 ^ x5,
        x5 ^ x4 ^ x3 ^ x2 ^ x1 == x1 ^ x2 ^ x3 ^ x4 ^ x5,
{
    assert({
        &&& x1 ^ x2 ^ x3 ^ x5 ^ x4 == x1 ^ x2 ^ x3 ^ x4 ^ x5
        &&& x1 ^ x2 ^ x4 ^ x3 ^ x5 == x1 ^ x2 ^ x3 ^ x4 ^ x5
        &&& x1 ^ x2 ^ x4 ^ x5 ^ x3 == x1 ^ x2 ^ x3 ^ x4 ^ x5
        &&& x1 ^ x2 ^ x5 ^ x3 ^ x4 == x1 ^ x2 ^ x3 ^ x4 ^ x5
        &&& x1 ^ x2 ^ x5 ^ x4 ^ x3 == x1 ^ x2 ^ x3 ^ x4 ^ x5
        &&& x1 ^ x3 ^ x2 ^ x4 ^ x5 == x1 ^ x2 ^ x3 ^ x4 ^ x5
        &&& x1 ^ x3 ^ x2 ^ x5 ^ x4 == x1 ^ x2 ^ x3 ^ x4 ^ x5
        &&& x1 ^ x3 ^ x4 ^ x2 ^ x5 == x1 ^ x2 ^ x3 ^ x4 ^ x5
        &&& x1 ^ x3 ^ x4 ^ x5 ^ x2 == x1 ^ x2 ^ x3 ^ x4 ^ x5
        &&& x1 ^ x3 ^ x5 ^ x2 ^ x4 == x1 ^ x2 ^ x3 ^ x4 ^ x5
        &&& x1 ^ x3 ^ x5 ^ x4 ^ x2 == x1 ^ x2 ^ x3 ^ x4 ^ x5
        &&& x1 ^ x4 ^ x2 ^ x3 ^ x5 == x1 ^ x2 ^ x3 ^ x4 ^ x5
        &&& x1 ^ x4 ^ x2 ^ x5 ^ x3 == x1 ^ x2 ^ x3 ^ x4 ^ x5
        &&& x1 ^ x4 ^ x3 ^ x2 ^ x5 == x1 ^ x2 ^ x3 ^ x4 ^ x5
        &&& x1 ^ x4 ^ x3 ^ x5 ^ x2 == x1 ^ x2 ^ x3 ^ x4 ^ x5
        &&& x1 ^ x4 ^ x5 ^ x2 ^ x3 == x1 ^ x2 ^ x3 ^ x4 ^ x5
        &&& x1 ^ x4 ^ x5 ^ x3 ^ x2 == x1 ^ x2 ^ x3 ^ x4 ^ x5
        &&& x1 ^ x5 ^ x2 ^ x3 ^ x4 == x1 ^ x2 ^ x3 ^ x4 ^ x5
        &&& x1 ^ x5 ^ x2 ^ x4 ^ x3 == x1 ^ x2 ^ x3 ^ x4 ^ x5
        &&& x1 ^ x5 ^ x3 ^ x2 ^ x4 == x1 ^ x2 ^ x3 ^ x4 ^ x5
        &&& x1 ^ x5 ^ x3 ^ x4 ^ x2 == x1 ^ x2 ^ x3 ^ x4 ^ x5
        &&& x1 ^ x5 ^ x4 ^ x2 ^ x3 == x1 ^ x2 ^ x3 ^ x4 ^ x5
        &&& x1 ^ x5 ^ x4 ^ x3 ^ x2 == x1 ^ x2 ^ x3 ^ x4 ^ x5
        &&& x2 ^ x1 ^ x3 ^ x4 ^ x5 == x1 ^ x2 ^ x3 ^ x4 ^ x5
        &&& x2 ^ x1 ^ x3 ^ x5 ^ x4 == x1 ^ x2 ^ x3 ^ x4 ^ x5
        &&& x2 ^ x1 ^ x4 ^ x3 ^ x5 == x1 ^ x2 ^ x3 ^ x4 ^ x5
        &&& x2 ^ x1 ^ x4 ^ x5 ^ x3 == x1 ^ x2 ^ x3 ^ x4 ^ x5
        &&& x2 ^ x1 ^ x5 ^ x3 ^ x4 == x1 ^ x2 ^ x3 ^ x4 ^ x5
        &&& x2 ^ x1 ^ x5 ^ x4 ^ x3 == x1 ^ x2 ^ x3 ^ x4 ^ x5
        &&& x2 ^ x3 ^ x1 ^ x4 ^ x5 == x1 ^ x2 ^ x3 ^ x4 ^ x5
        &&& x2 ^ x3 ^ x1 ^ x5 ^ x4 == x1 ^ x2 ^ x3 ^ x4 ^ x5
        &&& x2 ^ x3 ^ x4 ^ x1 ^ x5 == x1 ^ x2 ^ x3 ^ x4 ^ x5
        &&& x2 ^ x3 ^ x4 ^ x5 ^ x1 == x1 ^ x2 ^ x3 ^ x4 ^ x5
        &&& x2 ^ x3 ^ x5 ^ x1 ^ x4 == x1 ^ x2 ^ x3 ^ x4 ^ x5
        &&& x2 ^ x3 ^ x5 ^ x4 ^ x1 == x1 ^ x2 ^ x3 ^ x4 ^ x5
        &&& x2 ^ x4 ^ x1 ^ x3 ^ x5 == x1 ^ x2 ^ x3 ^ x4 ^ x5
        &&& x2 ^ x4 ^ x1 ^ x5 ^ x3 == x1 ^ x2 ^ x3 ^ x4 ^ x5
        &&& x2 ^ x4 ^ x3 ^ x1 ^ x5 == x1 ^ x2 ^ x3 ^ x4 ^ x5
        &&& x2 ^ x4 ^ x3 ^ x5 ^ x1 == x1 ^ x2 ^ x3 ^ x4 ^ x5
        &&& x2 ^ x4 ^ x5 ^ x1 ^ x3 == x1 ^ x2 ^ x3 ^ x4 ^ x5
        &&& x2 ^ x4 ^ x5 ^ x3 ^ x1 == x1 ^ x2 ^ x3 ^ x4 ^ x5
        &&& x2 ^ x5 ^ x1 ^ x3 ^ x4 == x1 ^ x2 ^ x3 ^ x4 ^ x5
        &&& x2 ^ x5 ^ x1 ^ x4 ^ x3 == x1 ^ x2 ^ x3 ^ x4 ^ x5
        &&& x2 ^ x5 ^ x3 ^ x1 ^ x4 == x1 ^ x2 ^ x3 ^ x4 ^ x5
        &&& x2 ^ x5 ^ x3 ^ x4 ^ x1 == x1 ^ x2 ^ x3 ^ x4 ^ x5
        &&& x2 ^ x5 ^ x4 ^ x1 ^ x3 == x1 ^ x2 ^ x3 ^ x4 ^ x5
        &&& x2 ^ x5 ^ x4 ^ x3 ^ x1 == x1 ^ x2 ^ x3 ^ x4 ^ x5
        &&& x3 ^ x1 ^ x2 ^ x4 ^ x5 == x1 ^ x2 ^ x3 ^ x4 ^ x5
        &&& x3 ^ x1 ^ x2 ^ x5 ^ x4 == x1 ^ x2 ^ x3 ^ x4 ^ x5
        &&& x3 ^ x1 ^ x4 ^ x2 ^ x5 == x1 ^ x2 ^ x3 ^ x4 ^ x5
        &&& x3 ^ x1 ^ x4 ^ x5 ^ x2 == x1 ^ x2 ^ x3 ^ x4 ^ x5
        &&& x3 ^ x1 ^ x5 ^ x2 ^ x4 == x1 ^ x2 ^ x3 ^ x4 ^ x5
        &&& x3 ^ x1 ^ x5 ^ x4 ^ x2 == x1 ^ x2 ^ x3 ^ x4 ^ x5
        &&& x3 ^ x2 ^ x1 ^ x4 ^ x5 == x1 ^ x2 ^ x3 ^ x4 ^ x5
        &&& x3 ^ x2 ^ x1 ^ x5 ^ x4 == x1 ^ x2 ^ x3 ^ x4 ^ x5
        &&& x3 ^ x2 ^ x4 ^ x1 ^ x5 == x1 ^ x2 ^ x3 ^ x4 ^ x5
        &&& x3 ^ x2 ^ x4 ^ x5 ^ x1 == x1 ^ x2 ^ x3 ^ x4 ^ x5
        &&& x3 ^ x2 ^ x5 ^ x1 ^ x4 == x1 ^ x2 ^ x3 ^ x4 ^ x5
        &&& x3 ^ x2 ^ x5 ^ x4 ^ x1 == x1 ^ x2 ^ x3 ^ x4 ^ x5
        &&& x3 ^ x4 ^ x1 ^ x2 ^ x5 == x1 ^ x2 ^ x3 ^ x4 ^ x5
        &&& x3 ^ x4 ^ x1 ^ x5 ^ x2 == x1 ^ x2 ^ x3 ^ x4 ^ x5
        &&& x3 ^ x4 ^ x2 ^ x1 ^ x5 == x1 ^ x2 ^ x3 ^ x4 ^ x5
        &&& x3 ^ x4 ^ x2 ^ x5 ^ x1 == x1 ^ x2 ^ x3 ^ x4 ^ x5
        &&& x3 ^ x4 ^ x5 ^ x1 ^ x2 == x1 ^ x2 ^ x3 ^ x4 ^ x5
        &&& x3 ^ x4 ^ x5 ^ x2 ^ x1 == x1 ^ x2 ^ x3 ^ x4 ^ x5
        &&& x3 ^ x5 ^ x1 ^ x2 ^ x4 == x1 ^ x2 ^ x3 ^ x4 ^ x5
        &&& x3 ^ x5 ^ x1 ^ x4 ^ x2 == x1 ^ x2 ^ x3 ^ x4 ^ x5
        &&& x3 ^ x5 ^ x2 ^ x1 ^ x4 == x1 ^ x2 ^ x3 ^ x4 ^ x5
        &&& x3 ^ x5 ^ x2 ^ x4 ^ x1 == x1 ^ x2 ^ x3 ^ x4 ^ x5
        &&& x3 ^ x5 ^ x4 ^ x1 ^ x2 == x1 ^ x2 ^ x3 ^ x4 ^ x5
        &&& x3 ^ x5 ^ x4 ^ x2 ^ x1 == x1 ^ x2 ^ x3 ^ x4 ^ x5
        &&& x4 ^ x1 ^ x2 ^ x3 ^ x5 == x1 ^ x2 ^ x3 ^ x4 ^ x5
        &&& x4 ^ x1 ^ x2 ^ x5 ^ x3 == x1 ^ x2 ^ x3 ^ x4 ^ x5
        &&& x4 ^ x1 ^ x3 ^ x2 ^ x5 == x1 ^ x2 ^ x3 ^ x4 ^ x5
        &&& x4 ^ x1 ^ x3 ^ x5 ^ x2 == x1 ^ x2 ^ x3 ^ x4 ^ x5
        &&& x4 ^ x1 ^ x5 ^ x2 ^ x3 == x1 ^ x2 ^ x3 ^ x4 ^ x5
        &&& x4 ^ x1 ^ x5 ^ x3 ^ x2 == x1 ^ x2 ^ x3 ^ x4 ^ x5
        &&& x4 ^ x2 ^ x1 ^ x3 ^ x5 == x1 ^ x2 ^ x3 ^ x4 ^ x5
        &&& x4 ^ x2 ^ x1 ^ x5 ^ x3 == x1 ^ x2 ^ x3 ^ x4 ^ x5
        &&& x4 ^ x2 ^ x3 ^ x1 ^ x5 == x1 ^ x2 ^ x3 ^ x4 ^ x5
        &&& x4 ^ x2 ^ x3 ^ x5 ^ x1 == x1 ^ x2 ^ x3 ^ x4 ^ x5
        &&& x4 ^ x2 ^ x5 ^ x1 ^ x3 == x1 ^ x2 ^ x3 ^ x4 ^ x5
        &&& x4 ^ x2 ^ x5 ^ x3 ^ x1 == x1 ^ x2 ^ x3 ^ x4 ^ x5
        &&& x4 ^ x3 ^ x1 ^ x2 ^ x5 == x1 ^ x2 ^ x3 ^ x4 ^ x5
        &&& x4 ^ x3 ^ x1 ^ x5 ^ x2 == x1 ^ x2 ^ x3 ^ x4 ^ x5
        &&& x4 ^ x3 ^ x2 ^ x1 ^ x5 == x1 ^ x2 ^ x3 ^ x4 ^ x5
        &&& x4 ^ x3 ^ x2 ^ x5 ^ x1 == x1 ^ x2 ^ x3 ^ x4 ^ x5
        &&& x4 ^ x3 ^ x5 ^ x1 ^ x2 == x1 ^ x2 ^ x3 ^ x4 ^ x5
        &&& x4 ^ x3 ^ x5 ^ x2 ^ x1 == x1 ^ x2 ^ x3 ^ x4 ^ x5
        &&& x4 ^ x5 ^ x1 ^ x2 ^ x3 == x1 ^ x2 ^ x3 ^ x4 ^ x5
        &&& x4 ^ x5 ^ x1 ^ x3 ^ x2 == x1 ^ x2 ^ x3 ^ x4 ^ x5
        &&& x4 ^ x5 ^ x2 ^ x1 ^ x3 == x1 ^ x2 ^ x3 ^ x4 ^ x5
        &&& x4 ^ x5 ^ x2 ^ x3 ^ x1 == x1 ^ x2 ^ x3 ^ x4 ^ x5
        &&& x4 ^ x5 ^ x3 ^ x1 ^ x2 == x1 ^ x2 ^ x3 ^ x4 ^ x5
        &&& x4 ^ x5 ^ x3 ^ x2 ^ x1 == x1 ^ x2 ^ x3 ^ x4 ^ x5
        &&& x5 ^ x1 ^ x2 ^ x3 ^ x4 == x1 ^ x2 ^ x3 ^ x4 ^ x5
        &&& x5 ^ x1 ^ x2 ^ x4 ^ x3 == x1 ^ x2 ^ x3 ^ x4 ^ x5
        &&& x5 ^ x1 ^ x3 ^ x2 ^ x4 == x1 ^ x2 ^ x3 ^ x4 ^ x5
        &&& x5 ^ x1 ^ x3 ^ x4 ^ x2 == x1 ^ x2 ^ x3 ^ x4 ^ x5
        &&& x5 ^ x1 ^ x4 ^ x2 ^ x3 == x1 ^ x2 ^ x3 ^ x4 ^ x5
        &&& x5 ^ x1 ^ x4 ^ x3 ^ x2 == x1 ^ x2 ^ x3 ^ x4 ^ x5
        &&& x5 ^ x2 ^ x1 ^ x3 ^ x4 == x1 ^ x2 ^ x3 ^ x4 ^ x5
        &&& x5 ^ x2 ^ x1 ^ x4 ^ x3 == x1 ^ x2 ^ x3 ^ x4 ^ x5
        &&& x5 ^ x2 ^ x3 ^ x1 ^ x4 == x1 ^ x2 ^ x3 ^ x4 ^ x5
        &&& x5 ^ x2 ^ x3 ^ x4 ^ x1 == x1 ^ x2 ^ x3 ^ x4 ^ x5
        &&& x5 ^ x2 ^ x4 ^ x1 ^ x3 == x1 ^ x2 ^ x3 ^ x4 ^ x5
        &&& x5 ^ x2 ^ x4 ^ x3 ^ x1 == x1 ^ x2 ^ x3 ^ x4 ^ x5
        &&& x5 ^ x3 ^ x1 ^ x2 ^ x4 == x1 ^ x2 ^ x3 ^ x4 ^ x5
        &&& x5 ^ x3 ^ x1 ^ x4 ^ x2 == x1 ^ x2 ^ x3 ^ x4 ^ x5
        &&& x5 ^ x3 ^ x2 ^ x1 ^ x4 == x1 ^ x2 ^ x3 ^ x4 ^ x5
        &&& x5 ^ x3 ^ x2 ^ x4 ^ x1 == x1 ^ x2 ^ x3 ^ x4 ^ x5
        &&& x5 ^ x3 ^ x4 ^ x1 ^ x2 == x1 ^ x2 ^ x3 ^ x4 ^ x5
        &&& x5 ^ x3 ^ x4 ^ x2 ^ x1 == x1 ^ x2 ^ x3 ^ x4 ^ x5
        &&& x5 ^ x4 ^ x1 ^ x2 ^ x3 == x1 ^ x2 ^ x3 ^ x4 ^ x5
        &&& x5 ^ x4 ^ x1 ^ x3 ^ x2 == x1 ^ x2 ^ x3 ^ x4 ^ x5
        &&& x5 ^ x4 ^ x2 ^ x1 ^ x3 == x1 ^ x2 ^ x3 ^ x4 ^ x5
        &&& x5 ^ x4 ^ x2 ^ x3 ^ x1 == x1 ^ x2 ^ x3 ^ x4 ^ x5
        &&& x5 ^ x4 ^ x3 ^ x1 ^ x2 == x1 ^ x2 ^ x3 ^ x4 ^ x5
        &&& x5 ^ x4 ^ x3 ^ x2 ^ x1 == x1 ^ x2 ^ x3 ^ x4 ^ x5
    }) by (bit_vector);
}

/// The checksum does not depend on the order of bytes 1 through 5: a frame
/// whose bytes 1 through 5 are those of `b` rearranged by the permutation
/// `pi` of 1..=5 has the checksum of `b`.
pub proof fn lemma_checksum_permutation(b: Seq<u8>, c: Seq<u8>, pi: spec_fn(int) -> int)
    requires
        b.len() == 8,
        c.len() == 8,
        forall|i: int| 1 <= i <= 5 ==> 1 <= #[trigger] pi(i) <= 5,
        forall|i: int, j: int| 1 <= i <= 5 && 1 <= j <= 5 && i != j ==> #[trigger] pi(i) != #[trigger] pi(j),
        forall|i: int| 1 <= i <= 5 ==> c[i] == b[#[trigger] pi(i)],
    ensures
        checksum_of(c) == checksum_of(b),
{
    lemma_xor5_any_order(b[1], b[2], b[3], b[4], b[5]);
    assert(c[1] == b[pi(1)] && c[2] == b[pi(2)] && c[3] == b[pi(3)] && c[4] == b[pi(4)]
        && c[5] == b[pi(5)]);
    assert(1 <= pi(1) <= 5 && 1 <= pi(2) <= 5 && 1 <= pi(3) <= 5 && 1 <= pi(4) <= 5 && 1
        <= pi(5) <= 5);
}

/// Recomputing the checksum of a built command frame gives back the
/// checksum byte stored in it.
pub proof fn lemma_command_round_trip(command: u8, params: Seq<u8>)
    requires
        params.len() == 3,
    ensures
        checksum_of(command_frame(command, params)) == command_frame(command, params)[6],
{
}

/// Sends a command frame: drops whatever is still queued for writing, then
/// writes the frame for `command` and `params`.
///
/// The acknowledgement is read separately, with `Ack::read`. A short write is
/// not an error here; only a failure of the serial line is.
pub fn send_command<U: SfmUart>(driver: &U, command: u8, params: [u8; 3]) -> (r: Result<(), SfmError>)
    ensures
        r is Err ==> r->Err_0 is Esp,
{
    let command_buffer = build_command(command, params);
    match driver.flush_write() {
        Ok(()) => {},
        Err(e) => {
            return Err(e);
        },
    }
    match driver.write(&command_buffer) {
        Ok(_) => Ok(()),
        Err(e) => Err(e),
    }
}

} // verus!
