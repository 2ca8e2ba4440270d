use vstd::bytes::{
    lemma_auto_spec_u64_to_from_le_bytes, spec_u64_from_le_bytes, spec_u64_to_le_bytes,
    u64_from_le_bytes, u64_to_le_bytes,
};
use vstd::prelude::*;
use vstd::slice::{slice_index_get, slice_subrange};

use crate::fees::FeeSchedule;
use crate::pool::{CurveVariant, PoolState};

verus! {

/// The length of a persisted pool-state record: an initialized flag, two
/// mint identities, two reserves, the liquidity-token supply, the eight
/// numbers of the fee schedule (all little-endian 64-bit), and the curve
/// variant tag.
pub const POOL_STATE_LEN: usize = 106;

/// How an initialized flag is persisted.
pub open spec fn spec_flag_byte(initialized: bool) -> u8 {
    if initialized {
        1u8
    } else {
        0u8
    }
}

/// How a curve variant is persisted.
pub open spec fn spec_curve_tag(curve: CurveVariant) -> u8 {
    match curve {
        CurveVariant::ConstantProduct => 0u8,
    }
}

/// The persisted form of a pool: every field in order, integers as
/// little-endian bytes.
pub open spec fn spec_encode_pool(p: PoolState) -> Seq<u8> {
    seq![spec_flag_byte(p.initialized)] + spec_u64_to_le_bytes(p.x_mint_id)
        + spec_u64_to_le_bytes(p.y_mint_id) + spec_u64_to_le_bytes(p.reserve_x)
        + spec_u64_to_le_bytes(p.reserve_y) + spec_u64_to_le_bytes(p.lp_supply)
        + spec_u64_to_le_bytes(p.fee_schedule.trade_fee_numerator) + spec_u64_to_le_bytes(
        p.fee_schedule.trade_fee_denominator,
    ) + spec_u64_to_le_bytes(p.fee_schedule.owner_trade_fee_numerator) + spec_u64_to_le_bytes(
        p.fee_schedule.owner_trade_fee_denominator,
    ) + spec_u64_to_le_bytes(p.fee_schedule.owner_withdraw_fee_numerator) + spec_u64_to_le_bytes(
        p.fee_schedule.owner_withdraw_fee_denominator,
    ) + spec_u64_to_le_bytes(p.fee_schedule.host_fee_numerator) + spec_u64_to_le_bytes(
        p.fee_schedule.host_fee_denominator,
    ) + seq![spec_curve_tag(p.curve)]
}

/// What decoding a persisted record yields: the pool it holds, or nothing
/// when the length, the flag byte or the curve tag is not a valid record's.
pub open spec fn spec_decode_pool(s: Seq<u8>) -> Option<PoolState> {
    if s.len() != POOL_STATE_LEN {
        None
    } else if s[0] != 0 && s[0] != 1 {
        None
    } else if s[105] != 0 {
        None
    } else {
        Some(
            PoolState {
                initialized: s[0] == 1,
                x_mint_id: spec_u64_from_le_bytes(s.subrange(1, 9)),
                y_mint_id: spec_u64_from_le_bytes(s.subrange(9, 17)),
                reserve_x: spec_u64_from_le_bytes(s.subrange(17, 25)),
                reserve_y: spec_u64_from_le_bytes(s.subrange(25, 33)),
                lp_supply: spec_u64_from_le_bytes(s.subrange(33, 41)),
                fee_schedule: FeeSchedule {
                    trade_fee_numerator: spec_u64_from_le_bytes(s.subrange(41, 49)),
                    trade_fee_denominator: spec_u64_from_le_bytes(s.subrange(49, 57)),
                    owner_trade_fee_numerator: spec_u64_from_le_bytes(s.subrange(57, 65)),
                    owner_trade_fee_denominator: spec_u64_from_le_bytes(s.subrange(65, 73)),
                    owner_withdraw_fee_numerator: spec_u64_from_le_bytes(s.subrange(73, 81)),
                    owner_withdraw_fee_denominator: spec_u64_from_le_bytes(s.subrange(81, 89)),
                    host_fee_numerator: spec_u64_from_le_bytes(s.subrange(89, 97)),
                    host_fee_denominator: spec_u64_from_le_bytes(s.subrange(97, 105)),
                },
                curve: CurveVariant::ConstantProduct,
            },
        )
    }
}

/// Appends the little-endian bytes of one persisted integer.
fn push_u64(v: &mut Vec<u8>, x: u64)
    ensures
        final(v)@ == old(v)@ + spec_u64_to_le_bytes(x),
{
    let mut b = u64_to_le_bytes(x);
    v.append(&mut b);
}

/// Reads one persisted little-endian integer at the given offset.
fn read_u64(s: &[u8], offset: usize) -> (x: u64)
    requires
        offset + 8 <= s@.len(),
        s@.len() <= usize::MAX,
    ensures
        x == spec_u64_from_le_bytes(s@.subrange(offset as int, offset as int + 8)),
{
    u64_from_le_bytes(slice_subrange(s, offset, offset + 8))
}

/// Serializes a pool into its persisted record.
pub fn encode_pool(p: &PoolState) -> (v: Vec<u8>)
    ensures
        v@ == spec_encode_pool(*p),
        v@.len() == POOL_STATE_LEN,
{
    let mut v: Vec<u8> = Vec::new();
    v.push(if p.initialized { 1 } else { 0 });
    push_u64(&mut v, p.x_mint_id);
    push_u64(&mut v, p.y_mint_id);
    push_u64(&mut v, p.reserve_x);
    push_u64(&mut v, p.reserve_y);
    push_u64(&mut v, p.lp_supply);
    push_u64(&mut v, p.fee_schedule.trade_fee_numerator);
    push_u64(&mut v, p.fee_schedule.trade_fee_denominator);
    push_u64(&mut v, p.fee_schedule.owner_trade_fee_numerator);
    push_u64(&mut v, p.fee_schedule.owner_trade_fee_denominator);
    push_u64(&mut v, p.fee_schedule.owner_withdraw_fee_numerator);
    push_u64(&mut v, p.fee_schedule.owner_withdraw_fee_denominator);
    push_u64(&mut v, p.fee_schedule.host_fee_numerator);
    push_u64(&mut v, p.fee_schedule.host_fee_denominator);
    let tag: u8 = match p.curve {
        CurveVariant::ConstantProduct => 0,
    };
    v.push(tag);
    proof {
        lemma_auto_spec_u64_to_from_le_bytes();
        assert(v@ =~= spec_encode_pool(*p));
    }
    v
}

/// Parses a persisted record back into a pool; rejects a record of the
/// wrong length, or one whose flag byte or curve tag no pool writes.
pub fn decode_pool(s: &[u8]) -> (r: Option<PoolState>)
    ensures
        r == spec_decode_pool(s@),
{
    if s.len() != POOL_STATE_LEN {
        return None;
    }
    let flag = *slice_index_get(s, 0);
    if flag != 0 && flag != 1 {
        return None;
    }
    let tag = *slice_index_get(s, 105);
    if tag != 0 {
        return None;
    }
    Some(
        PoolState {
            initialized: flag == 1,
            x_mint_id: read_u64(s, 1),
            y_mint_id: read_u64(s, 9),
            reserve_x: read_u64(s, 17),
            reserve_y: read_u64(s, 25),
            lp_supply: read_u64(s, 33),
            fee_schedule: FeeSchedule {
                trade_fee_numerator: read_u64(s, 41),
                trade_fee_denominator: read_u64(s, 49),
                owner_trade_fee_numerator: read_u64(s, 57),
                owner_trade_fee_denominator: read_u64(s, 65),
                owner_withdraw_fee_numerator: read_u64(s, 73),
                owner_withdraw_fee_denominator: read_u64(s, 81),
                host_fee_numerator: read_u64(s, 89),
                host_fee_denominator: read_u64(s, 97),
            },
            curve: CurveVariant::ConstantProduct,
        },
    )
}

/// Round trip: decoding an encoded pool yields exactly that pool, for
/// every pool value.
pub proof fn lemma_pool_layout_round_trip(p: PoolState)
    ensures
        spec_decode_pool(spec_encode_pool(p)) == Some(p),
{
    lemma_auto_spec_u64_to_from_le_bytes();
    let s = spec_encode_pool(p);
    assert(s.len() == POOL_STATE_LEN);
    assert(s[0] == spec_flag_byte(p.initialized));
    assert(s[105] == spec_curve_tag(p.curve));
    assert(s.subrange(1, 9) =~= spec_u64_to_le_bytes(p.x_mint_id));
    assert(s.subrange(9, 17) =~= spec_u64_to_le_bytes(p.y_mint_id));
    assert(s.subrange(17, 25) =~= spec_u64_to_le_bytes(p.reserve_x));
    assert(s.subrange(25, 33) =~= spec_u64_to_le_bytes(p.reserve_y));
    assert(s.subrange(33, 41) =~= spec_u64_to_le_bytes(p.lp_supply));
    assert(s.subrange(41, 49) =~= spec_u64_to_le_bytes(p.fee_schedule.trade_fee_numerator));
    assert(s.subrange(49, 57) =~= spec_u64_to_le_bytes(p.fee_schedule.trade_fee_denominator));
    assert(s.subrange(57, 65) =~= spec_u64_to_le_bytes(p.fee_schedule.owner_trade_fee_numerator));
    assert(s.subrange(65, 73) =~= spec_u64_to_le_bytes(
        p.fee_schedule.owner_trade_fee_denominator,
    ));
    assert(s.subrange(73, 81) =~= spec_u64_to_le_bytes(
        p.fee_schedule.owner_withdraw_fee_numerator,
    ));
    assert(s.subrange(81, 89) =~= spec_u64_to_le_bytes(
        p.fee_schedule.owner_withdraw_fee_denominator,
    ));
    assert(s.subrange(89, 97) =~= spec_u64_to_le_bytes(p.fee_schedule.host_fee_numerator));
    assert(s.subrange(97, 105) =~= spec_u64_to_le_bytes(p.fee_schedule.host_fee_denominator));
    assert(spec_decode_pool(s) == Some(p));
}

/// The reverse round trip: any byte string that decodes at all is exactly
/// the persisted form of the pool it decodes to, so the layout has no
/// slack bytes and decoding loses nothing.
pub proof fn lemma_pool_layout_reverse_round_trip(s: Seq<u8>)
    ensures
        spec_decode_pool(s) matches Some(p) ==> spec_encode_pool(p) == s,
{
    lemma_auto_spec_u64_to_from_le_bytes();
    match spec_decode_pool(s) {
        Some(p) => {
            assert(spec_u64_to_le_bytes(p.x_mint_id) == s.subrange(1, 9));
            assert(spec_u64_to_le_bytes(p.y_mint_id) == s.subrange(9, 17));
            assert(spec_u64_to_le_bytes(p.reserve_x) == s.subrange(17, 25));
            assert(spec_u64_to_le_bytes(p.reserve_y) == s.subrange(25, 33));
            assert(spec_u64_to_le_bytes(p.lp_supply) == s.subrange(33, 41));
            assert(spec_u64_to_le_bytes(p.fee_schedule.trade_fee_numerator) == s.subrange(41, 49));
            assert(spec_u64_to_le_bytes(p.fee_schedule.trade_fee_denominator) == s.subrange(
                49,
                57,
            ));
            assert(spec_u64_to_le_bytes(p.fee_schedule.owner_trade_fee_numerator) == s.subrange(
                57,
                65,
            ));
            assert(spec_u64_to_le_bytes(p.fee_schedule.owner_trade_fee_denominator) == s.subrange(
                65,
                73,
            ));
            assert(spec_u64_to_le_bytes(p.fee_schedule.owner_withdraw_fee_numerator) == s.subrange(
                73,
                81,
            ));
            assert(spec_u64_to_le_bytes(p.fee_schedule.owner_withdraw_fee_denominator)
                == s.subrange(81, 89));
            assert(spec_u64_to_le_bytes(p.fee_schedule.host_fee_numerator) == s.subrange(89, 97));
            assert(spec_u64_to_le_bytes(p.fee_schedule.host_fee_denominator) == s.subrange(
                97,
                105,
            ));
            assert(spec_encode_pool(p) =~= s);
        },
        None => {},
    }
}

} // verus!
