//! The ids prometheus gives the server's metrics: FNV-1a hashes of their
//! names, worked out here once so that the registry is known to take all nine.
//! Each lemma unfolds the hash over the name's bytes (the name's characters,
//! then the separator 0xFF) and evaluates the resulting chain of steps on
//! 64-bit words with the bit-vector solver.
use vstd::prelude::*;

verus! {

/// The FNV-1a offset basis (64 bits).
pub const FNV_OFFSET: u64 = 0xcbf29ce484222325;

/// The FNV prime (64 bits).
pub const FNV_PRIME: u64 = 0x100000001b3;

/// One FNV-1a step: the byte is folded in with xor, then the state is
/// multiplied by the FNV prime, wrapping at 64 bits.
pub open spec fn fnv1a_step(h: u64, b: u8) -> u64 {
    ((h ^ (b as u64)) * FNV_PRIME) as u64
}

/// FNV-1a of the first `n` bytes of `bytes`.
pub open spec fn fnv1a_prefix(bytes: Seq<u8>, n: nat) -> u64
    decreases n,
{
    if n == 0 {
        FNV_OFFSET
    } else {
        fnv1a_step(fnv1a_prefix(bytes, (n - 1) as nat), bytes[n - 1])
    }
}

/// The bytes of a text of ASCII characters.
pub open spec fn ascii_bytes(s: Seq<char>) -> Seq<u8> {
    s.map_values(|c: char| c as u8)
}

/// The descriptor id prometheus gives a metric without labels whose
/// (ASCII) name is `name`: FNV-1a of the name's bytes followed by the
/// separator byte 0xFF. A single-metric collector has the same id.
pub closed spec fn metric_id(name: Seq<char>) -> u64 {
    fnv1a_prefix(ascii_bytes(name).push(0xFFu8), name.len() + 1)
}

/// The id of `http_requests_total`.
pub proof fn lemma_id_http_requests_total()
    ensures
        metric_id("http_requests_total"@) == 0x4217265b99da9aceu64,
{
    reveal_strlit("http_requests_total");
    reveal_with_fuel(fnv1a_prefix, 21);
    let b = ascii_bytes("http_requests_total"@).push(0xFFu8);
    assert(fnv1a_prefix(b, 20) == fnv1a_step(fnv1a_step(fnv1a_step(fnv1a_step(fnv1a_step(fnv1a_step(fnv1a_step(fnv1a_step(fnv1a_step(fnv1a_step(fnv1a_step(fnv1a_step(fnv1a_step(fnv1a_step(fnv1a_step(fnv1a_step(fnv1a_step(fnv1a_step(fnv1a_step(fnv1a_step(FNV_OFFSET, 104u8), 116u8), 116u8), 112u8), 95u8), 114u8), 101u8), 113u8), 117u8), 101u8), 115u8), 116u8), 115u8), 95u8), 116u8), 111u8), 116u8), 97u8), 108u8), 255u8));
    assert(fnv1a_step(fnv1a_step(fnv1a_step(fnv1a_step(fnv1a_step(fnv1a_step(fnv1a_step(fnv1a_step(fnv1a_step(fnv1a_step(fnv1a_step(fnv1a_step(fnv1a_step(fnv1a_step(fnv1a_step(fnv1a_step(fnv1a_step(fnv1a_step(fnv1a_step(fnv1a_step(FNV_OFFSET, 104u8), 116u8), 116u8), 112u8), 95u8), 114u8), 101u8), 113u8), 117u8), 101u8), 115u8), 116u8), 115u8), 95u8), 116u8), 111u8), 116u8), 97u8), 108u8), 255u8) == 0x4217265b99da9aceu64) by (bit_vector);
}

/// The id of `http_request_duration_seconds`.
pub proof fn lemma_id_http_request_duration_seconds()
    ensures
        metric_id("http_request_duration_seconds"@) == 0xfdd42088fb22972bu64,
{
    reveal_strlit("http_request_duration_seconds");
    reveal_with_fuel(fnv1a_prefix, 31);
    let b = ascii_bytes("http_request_duration_seconds"@).push(0xFFu8);
    assert(fnv1a_prefix(b, 30) == fnv1a_step(fnv1a_step(fnv1a_step(fnv1a_step(fnv1a_step(fnv1a_step(fnv1a_step(fnv1a_step(fnv1a_step(fnv1a_step(fnv1a_step(fnv1a_step(fnv1a_step(fnv1a_step(fnv1a_step(fnv1a_step(fnv1a_step(fnv1a_step(fnv1a_step(fnv1a_step(fnv1a_step(fnv1a_step(fnv1a_step(fnv1a_step(fnv1a_step(fnv1a_step(fnv1a_step(fnv1a_step(fnv1a_step(fnv1a_step(FNV_OFFSET, 104u8), 116u8), 116u8), 112u8), 95u8), 114u8), 101u8), 113u8), 117u8), 101u8), 115u8), 116u8), 95u8), 100u8), 117u8), 114u8), 97u8), 116u8), 105u8), 111u8), 110u8), 95u8), 115u8), 101u8), 99u8), 111u8), 110u8), 100u8), 115u8), 255u8));
    assert(fnv1a_step(fnv1a_step(fnv1a_step(fnv1a_step(fnv1a_step(fnv1a_step(fnv1a_step(fnv1a_step(fnv1a_step(fnv1a_step(fnv1a_step(fnv1a_step(fnv1a_step(fnv1a_step(fnv1a_step(fnv1a_step(fnv1a_step(fnv1a_step(fnv1a_step(fnv1a_step(fnv1a_step(fnv1a_step(fnv1a_step(fnv1a_step(fnv1a_step(fnv1a_step(fnv1a_step(fnv1a_step(fnv1a_step(fnv1a_step(FNV_OFFSET, 104u8), 116u8), 116u8), 112u8), 95u8), 114u8), 101u8), 113u8), 117u8), 101u8), 115u8), 116u8), 95u8), 100u8), 117u8), 114u8), 97u8), 116u8), 105u8), 111u8), 110u8), 95u8), 115u8), 101u8), 99u8), 111u8), 110u8), 100u8), 115u8), 255u8) == 0xfdd42088fb22972bu64) by (bit_vector);
}

/// The id of `db_connections`.
pub proof fn lemma_id_db_connections()
    ensures
        metric_id("db_connections"@) == 0x6e3443395dee91feu64,
{
    reveal_strlit("db_connections");
    reveal_with_fuel(fnv1a_prefix, 16);
    let b = ascii_bytes("db_connections"@).push(0xFFu8);
    assert(fnv1a_prefix(b, 15) == fnv1a_step(fnv1a_step(fnv1a_step(fnv1a_step(fnv1a_step(fnv1a_step(fnv1a_step(fnv1a_step(fnv1a_step(fnv1a_step(fnv1a_step(fnv1a_step(fnv1a_step(fnv1a_step(fnv1a_step(FNV_OFFSET, 100u8), 98u8), 95u8), 99u8), 111u8), 110u8), 110u8), 101u8), 99u8), 116u8), 105u8), 111u8), 110u8), 115u8), 255u8));
    assert(fnv1a_step(fnv1a_step(fnv1a_step(fnv1a_step(fnv1a_step(fnv1a_step(fnv1a_step(fnv1a_step(fnv1a_step(fnv1a_step(fnv1a_step(fnv1a_step(fnv1a_step(fnv1a_step(fnv1a_step(FNV_OFFSET, 100u8), 98u8), 95u8), 99u8), 111u8), 110u8), 110u8), 101u8), 99u8), 116u8), 105u8), 111u8), 110u8), 115u8), 255u8) == 0x6e3443395dee91feu64) by (bit_vector);
}

/// The id of `db_query_duration_seconds`.
pub proof fn lemma_id_db_query_duration_seconds()
    ensures
        metric_id("db_query_duration_seconds"@) == 0xb5dd4540fe66394cu64,
{
    reveal_strlit("db_query_duration_seconds");
    reveal_with_fuel(fnv1a_prefix, 27);
    let b = ascii_bytes("db_query_duration_seconds"@).push(0xFFu8);
    assert(fnv1a_prefix(b, 26) == fnv1a_step(fnv1a_step(fnv1a_step(fnv1a_step(fnv1a_step(fnv1a_step(fnv1a_step(fnv1a_step(fnv1a_step(fnv1a_step(fnv1a_step(fnv1a_step(fnv1a_step(fnv1a_step(fnv1a_step(fnv1a_step(fnv1a_step(fnv1a_step(fnv1a_step(fnv1a_step(fnv1a_step(fnv1a_step(fnv1a_step(fnv1a_step(fnv1a_step(fnv1a_step(FNV_OFFSET, 100u8), 98u8), 95u8), 113u8), 117u8), 101u8), 114u8), 121u8), 95u8), 100u8), 117u8), 114u8), 97u8), 116u8), 105u8), 111u8), 110u8), 95u8), 115u8), 101u8), 99u8), 111u8), 110u8), 100u8), 115u8), 255u8));
    assert(fnv1a_step(fnv1a_step(fnv1a_step(fnv1a_step(fnv1a_step(fnv1a_step(fnv1a_step(fnv1a_step(fnv1a_step(fnv1a_step(fnv1a_step(fnv1a_step(fnv1a_step(fnv1a_step(fnv1a_step(fnv1a_step(fnv1a_step(fnv1a_step(fnv1a_step(fnv1a_step(fnv1a_step(fnv1a_step(fnv1a_step(fnv1a_step(fnv1a_step(fnv1a_step(FNV_OFFSET, 100u8), 98u8), 95u8), 113u8), 117u8), 101u8), 114u8), 121u8), 95u8), 100u8), 117u8), 114u8), 97u8), 116u8), 105u8), 111u8), 110u8), 95u8), 115u8), 101u8), 99u8), 111u8), 110u8), 100u8), 115u8), 255u8) == 0xb5dd4540fe66394cu64) by (bit_vector);
}

/// The id of `redis_connections`.
pub proof fn lemma_id_redis_connections()
    ensures
        metric_id("redis_connections"@) == 0x889306738ae0907fu64,
{
    reveal_strlit("redis_connections");
    reveal_with_fuel(fnv1a_prefix, 19);
    let b = ascii_bytes("redis_connections"@).push(0xFFu8);
    assert(fnv1a_prefix(b, 18) == fnv1a_step(fnv1a_step(fnv1a_step(fnv1a_step(fnv1a_step(fnv1a_step(fnv1a_step(fnv1a_step(fnv1a_step(fnv1a_step(fnv1a_step(fnv1a_step(fnv1a_step(fnv1a_step(fnv1a_step(fnv1a_step(fnv1a_step(fnv1a_step(FNV_OFFSET, 114u8), 101u8), 100u8), 105u8), 115u8), 95u8), 99u8), 111u8), 110u8), 110u8), 101u8), 99u8), 116u8), 105u8), 111u8), 110u8), 115u8), 255u8));
    assert(fnv1a_step(fnv1a_step(fnv1a_step(fnv1a_step(fnv1a_step(fnv1a_step(fnv1a_step(fnv1a_step(fnv1a_step(fnv1a_step(fnv1a_step(fnv1a_step(fnv1a_step(fnv1a_step(fnv1a_step(fnv1a_step(fnv1a_step(fnv1a_step(FNV_OFFSET, 114u8), 101u8), 100u8), 105u8), 115u8), 95u8), 99u8), 111u8), 110u8), 110u8), 101u8), 99u8), 116u8), 105u8), 111u8), 110u8), 115u8), 255u8) == 0x889306738ae0907fu64) by (bit_vector);
}

/// The id of `redis_operation_duration_seconds`.
pub proof fn lemma_id_redis_operation_duration_seconds()
    ensures
        metric_id("redis_operation_duration_seconds"@) == 0x1ec131de4f82e922u64,
{
    reveal_strlit("redis_operation_duration_seconds");
    reveal_with_fuel(fnv1a_prefix, 34);
    let b = ascii_bytes("redis_operation_duration_seconds"@).push(0xFFu8);
    assert(fnv1a_prefix(b, 33) == fnv1a_step(fnv1a_step(fnv1a_step(fnv1a_step(fnv1a_step(fnv1a_step(fnv1a_step(fnv1a_step(fnv1a_step(fnv1a_step(fnv1a_step(fnv1a_step(fnv1a_step(fnv1a_step(fnv1a_step(fnv1a_step(fnv1a_step(fnv1a_step(fnv1a_step(fnv1a_step(fnv1a_step(fnv1a_step(fnv1a_step(fnv1a_step(fnv1a_step(fnv1a_step(fnv1a_step(fnv1a_step(fnv1a_step(fnv1a_step(fnv1a_step(fnv1a_step(fnv1a_step(FNV_OFFSET, 114u8), 101u8), 100u8), 105u8), 115u8), 95u8), 111u8), 112u8), 101u8), 114u8), 97u8), 116u8), 105u8), 111u8), 110u8), 95u8), 100u8), 117u8), 114u8), 97u8), 116u8), 105u8), 111u8), 110u8), 95u8), 115u8), 101u8), 99u8), 111u8), 110u8), 100u8), 115u8), 255u8));
    assert(fnv1a_step(fnv1a_step(fnv1a_step(fnv1a_step(fnv1a_step(fnv1a_step(fnv1a_step(fnv1a_step(fnv1a_step(fnv1a_step(fnv1a_step(fnv1a_step(fnv1a_step(fnv1a_step(fnv1a_step(fnv1a_step(fnv1a_step(fnv1a_step(fnv1a_step(fnv1a_step(fnv1a_step(fnv1a_step(fnv1a_step(fnv1a_step(fnv1a_step(fnv1a_step(fnv1a_step(fnv1a_step(fnv1a_step(fnv1a_step(fnv1a_step(fnv1a_step(fnv1a_step(FNV_OFFSET, 114u8), 101u8), 100u8), 105u8), 115u8), 95u8), 111u8), 112u8), 101u8), 114u8), 97u8), 116u8), 105u8), 111u8), 110u8), 95u8), 100u8), 117u8), 114u8), 97u8), 116u8), 105u8), 111u8), 110u8), 95u8), 115u8), 101u8), 99u8), 111u8), 110u8), 100u8), 115u8), 255u8) == 0x1ec131de4f82e922u64) by (bit_vector);
}

/// The id of `messages_sent_total`.
pub proof fn lemma_id_messages_sent_total()
    ensures
        metric_id("messages_sent_total"@) == 0x8fd813bd4346539au64,
{
    reveal_strlit("messages_sent_total");
    reveal_with_fuel(fnv1a_prefix, 21);
    let b = ascii_bytes("messages_sent_total"@).push(0xFFu8);
    assert(fnv1a_prefix(b, 20) == fnv1a_step(fnv1a_step(fnv1a_step(fnv1a_step(fnv1a_step(fnv1a_step(fnv1a_step(fnv1a_step(fnv1a_step(fnv1a_step(fnv1a_step(fnv1a_step(fnv1a_step(fnv1a_step(fnv1a_step(fnv1a_step(fnv1a_step(fnv1a_step(fnv1a_step(fnv1a_step(FNV_OFFSET, 109u8), 101u8), 115u8), 115u8), 97u8), 103u8), 101u8), 115u8), 95u8), 115u8), 101u8), 110u8), 116u8), 95u8), 116u8), 111u8), 116u8), 97u8), 108u8), 255u8));
    assert(fnv1a_step(fnv1a_step(fnv1a_step(fnv1a_step(fnv1a_step(fnv1a_step(fnv1a_step(fnv1a_step(fnv1a_step(fnv1a_step(fnv1a_step(fnv1a_step(fnv1a_step(fnv1a_step(fnv1a_step(fnv1a_step(fnv1a_step(fnv1a_step(fnv1a_step(fnv1a_step(FNV_OFFSET, 109u8), 101u8), 115u8), 115u8), 97u8), 103u8), 101u8), 115u8), 95u8), 115u8), 101u8), 110u8), 116u8), 95u8), 116u8), 111u8), 116u8), 97u8), 108u8), 255u8) == 0x8fd813bd4346539au64) by (bit_vector);
}

/// The id of `messages_delivered_total`.
pub proof fn lemma_id_messages_delivered_total()
    ensures
        metric_id("messages_delivered_total"@) == 0xa2f37af6626e4c60u64,
{
    reveal_strlit("messages_delivered_total");
    reveal_with_fuel(fnv1a_prefix, 26);
    let b = ascii_bytes("messages_delivered_total"@).push(0xFFu8);
    assert(fnv1a_prefix(b, 25) == fnv1a_step(fnv1a_step(fnv1a_step(fnv1a_step(fnv1a_step(fnv1a_step(fnv1a_step(fnv1a_step(fnv1a_step(fnv1a_step(fnv1a_step(fnv1a_step(fnv1a_step(fnv1a_step(fnv1a_step(fnv1a_step(fnv1a_step(fnv1a_step(fnv1a_step(fnv1a_step(fnv1a_step(fnv1a_step(fnv1a_step(fnv1a_step(fnv1a_step(FNV_OFFSET, 109u8), 101u8), 115u8), 115u8), 97u8), 103u8), 101u8), 115u8), 95u8), 100u8), 101u8), 108u8), 105u8), 118u8), 101u8), 114u8), 101u8), 100u8), 95u8), 116u8), 111u8), 116u8), 97u8), 108u8), 255u8));
    assert(fnv1a_step(fnv1a_step(fnv1a_step(fnv1a_step(fnv1a_step(fnv1a_step(fnv1a_step(fnv1a_step(fnv1a_step(fnv1a_step(fnv1a_step(fnv1a_step(fnv1a_step(fnv1a_step(fnv1a_step(fnv1a_step(fnv1a_step(fnv1a_step(fnv1a_step(fnv1a_step(fnv1a_step(fnv1a_step(fnv1a_step(fnv1a_step(fnv1a_step(FNV_OFFSET, 109u8), 101u8), 115u8), 115u8), 97u8), 103u8), 101u8), 115u8), 95u8), 100u8), 101u8), 108u8), 105u8), 118u8), 101u8), 114u8), 101u8), 100u8), 95u8), 116u8), 111u8), 116u8), 97u8), 108u8), 255u8) == 0xa2f37af6626e4c60u64) by (bit_vector);
}

/// The id of `error_total`.
pub proof fn lemma_id_error_total()
    ensures
        metric_id("error_total"@) == 0xb56b5844bba6f1c1u64,
{
    reveal_strlit("error_total");
    reveal_with_fuel(fnv1a_prefix, 13);
    let b = ascii_bytes("error_total"@).push(0xFFu8);
    assert(fnv1a_prefix(b, 12) == fnv1a_step(fnv1a_step(fnv1a_step(fnv1a_step(fnv1a_step(fnv1a_step(fnv1a_step(fnv1a_step(fnv1a_step(fnv1a_step(fnv1a_step(fnv1a_step(FNV_OFFSET, 101u8), 114u8), 114u8), 111u8), 114u8), 95u8), 116u8), 111u8), 116u8), 97u8), 108u8), 255u8));
    assert(fnv1a_step(fnv1a_step(fnv1a_step(fnv1a_step(fnv1a_step(fnv1a_step(fnv1a_step(fnv1a_step(fnv1a_step(fnv1a_step(fnv1a_step(fnv1a_step(FNV_OFFSET, 101u8), 114u8), 114u8), 111u8), 114u8), 95u8), 116u8), 111u8), 116u8), 97u8), 108u8), 255u8) == 0xb56b5844bba6f1c1u64) by (bit_vector);
}

} // verus!
