use vstd::prelude::*;
use crate::decode::{packed_price, packed_slot, rescaled, scale_to_global};
use crate::errors::ContractError;
use crate::freshness::{admit_decision, admitted_view, set_last_updated_values};
use crate::roles::only_updater;
use crate::state::{
    BlockEnv, FeedState, FeedView, PositionRouterState, PriceDataItem, TokenDataView,
    CUMULATIVE_DELTA_PRECISION, PRICE_PRECISION,
};

verus! {

/// Absolute difference of two prices.
pub open spec fn abs_diff(a: u128, b: u128) -> int {
    if a > b {
        a - b
    } else {
        b - a
    }
}

/// This ingestion's normalized reference-side drift contribution:
/// the absolute reference delta at `CUMULATIVE_DELTA_PRECISION`,
/// divided by the previous reference price; zero while no previous
/// reference price exists.
pub open spec fn ref_contribution(d: PriceDataItem, ref_price: u128) -> int {
    if d.ref_price > 0 {
        abs_diff(ref_price, d.ref_price) * (CUMULATIVE_DELTA_PRECISION as int) / (d.ref_price
            as int)
    } else {
        0
    }
}

/// This ingestion's normalized fast-side drift contribution; zero
/// while no previous reference or fast price exists.
pub open spec fn fast_contribution(d: PriceDataItem, prev_fast: u128, price: u128) -> int {
    if d.ref_price > 0 && prev_fast > 0 {
        abs_diff(prev_fast, price) * (CUMULATIVE_DELTA_PRECISION as int) / (prev_fast as int)
    } else {
        0
    }
}

/// Whether `block_timestamp` falls into a different time bucket than
/// the record's last reference observation.
pub open spec fn bucket_rollover(d: PriceDataItem, block_timestamp: u64, interval: u64) -> bool
    recommends
        interval > 0,
{
    d.ref_time as int / interval as int != block_timestamp as int / interval as int
}

/// The deviation record an ingestion writes.
///
/// With no reference signal the accumulators are carried over
/// unchanged; otherwise both deltas are accumulated at fixed
/// precision, after a reset to zero when the time bucket rolled over.
/// Arithmetic that cannot be carried out exactly — a zero
/// `price_data_interval`, or an accumulator leaving `u128` — fails the
/// ingestion.
pub open spec fn ingest_record(
    d: PriceDataItem,
    prev_fast: u128,
    price: u128,
    ref_price: u128,
    block_timestamp: u64,
    interval: u64,
) -> Result<PriceDataItem, ContractError> {
    if ref_price == 0 {
        Ok(
            PriceDataItem {
                ref_price: 0,
                ref_time: block_timestamp,
                cumulative_ref_delta: d.cumulative_ref_delta,
                cumulative_fast_delta: d.cumulative_fast_delta,
            },
        )
    } else if interval == 0 {
        Err(ContractError::Computation)
    } else {
        let ref_delta: int = if d.ref_price > 0 {
            abs_diff(ref_price, d.ref_price)
        } else {
            0
        };
        let fast_delta: int = if d.ref_price > 0 {
            abs_diff(prev_fast, price)
        } else {
            0
        };
        if ref_delta * (CUMULATIVE_DELTA_PRECISION as int) > u128::MAX as int {
            Err(ContractError::Computation)
        } else if fast_delta * (CUMULATIVE_DELTA_PRECISION as int) > u128::MAX as int {
            Err(ContractError::Computation)
        } else {
            let base_ref: int = if bucket_rollover(d, block_timestamp, interval) {
                0
            } else {
                d.cumulative_ref_delta as int
            };
            let base_fast: int = if bucket_rollover(d, block_timestamp, interval) {
                0
            } else {
                d.cumulative_fast_delta as int
            };
            if base_ref + ref_contribution(d, ref_price) > u128::MAX as int {
                Err(ContractError::Computation)
            } else if base_fast + fast_contribution(d, prev_fast, price) > u128::MAX as int {
                Err(ContractError::Computation)
            } else {
                Ok(
                    PriceDataItem {
                        ref_price,
                        ref_time: block_timestamp,
                        cumulative_ref_delta: (base_ref + ref_contribution(d, ref_price)) as u128,
                        cumulative_fast_delta: (base_fast + fast_contribution(
                            d,
                            prev_fast,
                            price,
                        )) as u128,
                    },
                )
            }
        }
    }
}

/// Bucket reset: an ingestion whose block timestamp falls into a new
/// time bucket starts both accumulators from zero, so the record it
/// writes holds this call's contributions alone.
pub proof fn lemma_bucket_reset(
    d: PriceDataItem,
    prev_fast: u128,
    price: u128,
    ref_price: u128,
    block_timestamp: u64,
    interval: u64,
)
    requires
        ref_price > 0,
        interval > 0,
        bucket_rollover(d, block_timestamp, interval),
        ingest_record(d, prev_fast, price, ref_price, block_timestamp, interval) is Ok,
    ensures
        ingest_record(
            d,
            prev_fast,
            price,
            ref_price,
            block_timestamp,
            interval,
        )->Ok_0.cumulative_ref_delta == ref_contribution(d, ref_price),
        ingest_record(
            d,
            prev_fast,
            price,
            ref_price,
            block_timestamp,
            interval,
        )->Ok_0.cumulative_fast_delta == fast_contribution(d, prev_fast, price),
{
}

/// What one admitted per-token ingestion does to the store: the
/// deviation record moves to `ingest_record`'s result and the token's
/// fast price is overwritten; an arithmetic failure leaves the store
/// untouched.
pub open spec fn set_price_step(
    pre: FeedView,
    block_timestamp: u64,
    token: Seq<char>,
    price: u128,
    ref_price: u128,
) -> Result<FeedView, ContractError> {
    match ingest_record(
        pre.data_of(token),
        pre.price_of(token),
        price,
        ref_price,
        block_timestamp,
        pre.price_data_interval,
    ) {
        Ok(item) => Ok(
            FeedView {
                price_data: pre.price_data.insert(token, item),
                prices: pre.prices.insert(token, price),
                ..pre
            },
        ),
        Err(e) => Err(e),
    }
}

/// Compute the deviation record one ingestion writes.
fn compute_price_data(
    d: PriceDataItem,
    prev_fast: u128,
    price: u128,
    ref_price: u128,
    block_timestamp: u64,
    interval: u64,
) -> (r: Result<PriceDataItem, ContractError>)
    ensures
        r == ingest_record(d, prev_fast, price, ref_price, block_timestamp, interval),
{
    if ref_price == 0 {
        return Ok(
            PriceDataItem {
                ref_price: 0,
                ref_time: block_timestamp,
                cumulative_ref_delta: d.cumulative_ref_delta,
                cumulative_fast_delta: d.cumulative_fast_delta,
            },
        );
    }
    if interval == 0 {
        return Err(ContractError::Computation);
    }
    let ref_delta: u128 = if d.ref_price > 0 {
        if ref_price > d.ref_price {
            ref_price - d.ref_price
        } else {
            d.ref_price - ref_price
        }
    } else {
        0
    };
    let fast_delta: u128 = if d.ref_price > 0 {
        if prev_fast > price {
            prev_fast - price
        } else {
            price - prev_fast
        }
    } else {
        0
    };
    let scaled_ref: u128 = match ref_delta.checked_mul(CUMULATIVE_DELTA_PRECISION) {
        Some(x) => x,
        None => {
            return Err(ContractError::Computation);
        },
    };
    let scaled_fast: u128 = match fast_delta.checked_mul(CUMULATIVE_DELTA_PRECISION) {
        Some(x) => x,
        None => {
            return Err(ContractError::Computation);
        },
    };
    let reset: bool = d.ref_time / interval != block_timestamp / interval;
    let base_ref: u128 = if reset {
        0
    } else {
        d.cumulative_ref_delta
    };
    let base_fast: u128 = if reset {
        0
    } else {
        d.cumulative_fast_delta
    };
    let contrib_ref: u128 = if d.ref_price > 0 {
        scaled_ref / d.ref_price
    } else {
        0
    };
    let contrib_fast: u128 = if prev_fast > 0 {
        scaled_fast / prev_fast
    } else {
        0
    };
    let cumulative_ref_delta: u128 = match base_ref.checked_add(contrib_ref) {
        Some(x) => x,
        None => {
            return Err(ContractError::Computation);
        },
    };
    let cumulative_fast_delta: u128 = match base_fast.checked_add(contrib_fast) {
        Some(x) => x,
        None => {
            return Err(ContractError::Computation);
        },
    };
    Ok(
        PriceDataItem {
            ref_price,
            ref_time: block_timestamp,
            cumulative_ref_delta,
            cumulative_fast_delta,
        },
    )
}

/// Ingest one token's fast price against the reference price the
/// collaborator supplied, updating the deviation record and storing
/// the new price. The freshness gate is the caller's business; this
/// operation never touches the watermark.
pub fn set_price(
    state: &mut FeedState,
    block_timestamp: u64,
    token: &String,
    price: u128,
    ref_price: u128,
) -> (r: Result<(), ContractError>)
    requires
        old(state).wf(),
    ensures
        final(state).wf(),
        set_price_step(old(state)@, block_timestamp, token@, price, ref_price) matches Ok(v)
            ==> r == Ok::<(), ContractError>(()) && final(state)@ == v,
        set_price_step(old(state)@, block_timestamp, token@, price, ref_price) matches Err(e)
            ==> r == Err::<(), ContractError>(e) && final(state)@ == old(state)@,
{
    let prev_data = match state.price_data.get(token) {
        Some(d) => d,
        None => PriceDataItem {
            ref_price: 0,
            ref_time: 0,
            cumulative_ref_delta: 0,
            cumulative_fast_delta: 0,
        },
    };
    let prev_fast = match state.prices.get(token) {
        Some(p) => p,
        None => 0,
    };
    let item = match compute_price_data(
        prev_data,
        prev_fast,
        price,
        ref_price,
        block_timestamp,
        state.price_data_interval,
    ) {
        Ok(item) => item,
        Err(e) => {
            return Err(e);
        },
    };
    state.price_data.insert(token, item);
    state.prices.insert(token, price);
    proof {
        let stepped = set_price_step(old(state)@, block_timestamp, token@, price, ref_price);
        assert(state@ =~= stepped->Ok_0);
    }
    Ok(())
}

/// Ingest a list of tokens one after the other, threading the store
/// through; the first arithmetic failure aborts the whole batch.
pub open spec fn ingest_fold(
    pre: FeedView,
    block_timestamp: u64,
    tokens: Seq<String>,
    prices: Seq<u128>,
    refs: Seq<u128>,
) -> Result<FeedView, ContractError>
    recommends
        tokens.len() == prices.len(),
        tokens.len() == refs.len(),
    decreases tokens.len(),
{
    if tokens.len() == 0 {
        Ok(pre)
    } else {
        match set_price_step(pre, block_timestamp, tokens[0]@, prices[0], refs[0]) {
            Ok(mid) => ingest_fold(
                mid,
                block_timestamp,
                tokens.drop_first(),
                prices.drop_first(),
                refs.drop_first(),
            ),
            Err(e) => Err(e),
        }
    }
}

proof fn lemma_ingest_fold_step(
    pre: FeedView,
    block_timestamp: u64,
    tokens: Seq<String>,
    prices: Seq<u128>,
    refs: Seq<u128>,
    i: int,
)
    requires
        tokens.len() == prices.len(),
        tokens.len() == refs.len(),
        0 <= i < tokens.len(),
    ensures
        ingest_fold(pre, block_timestamp, tokens.skip(i), prices.skip(i), refs.skip(i)) == (match set_price_step(
            pre,
            block_timestamp,
            tokens[i]@,
            prices[i],
            refs[i],
        ) {
            Ok(mid) => ingest_fold(
                mid,
                block_timestamp,
                tokens.skip(i + 1),
                prices.skip(i + 1),
                refs.skip(i + 1),
            ),
            Err(e) => Err(e),
        }),
{
    assert(tokens.skip(i)[0] == tokens[i]);
    assert(prices.skip(i)[0] == prices[i]);
    assert(refs.skip(i)[0] == refs[i]);
    assert(tokens.skip(i).drop_first() =~= tokens.skip(i + 1));
    assert(prices.skip(i).drop_first() =~= prices.skip(i + 1));
    assert(refs.skip(i).drop_first() =~= refs.skip(i + 1));
}

/// What a batch price submission does: only an updater may submit,
/// the three lists must align, the freshness gate admits, ignores or
/// rejects the batch, and an admitted batch moves the watermark and
/// ingests every token — or, on any arithmetic failure, leaves the
/// store exactly as it was.
pub open spec fn set_prices_post(
    pre: FeedView,
    post: FeedView,
    sender: Seq<char>,
    block: BlockEnv,
    tokens: Seq<String>,
    prices: Seq<u128>,
    refs: Seq<u128>,
    timestamp: u64,
    r: Result<(), ContractError>,
) -> bool {
    if !pre.updater_of(sender) {
        post == pre && r == Err::<(), ContractError>(ContractError::Forbidden)
    } else if tokens.len() != prices.len() || tokens.len() != refs.len() {
        post == pre && r == Err::<(), ContractError>(ContractError::InvalidLength)
    } else {
        match admit_decision(pre, block, timestamp) {
            Err(e) => post == pre && r == Err::<(), ContractError>(e),
            Ok(false) => post == pre && r == Ok::<(), ContractError>(()),
            Ok(true) => {
                match ingest_fold(
                    admitted_view(pre, block, timestamp),
                    block.time,
                    tokens,
                    prices,
                    refs,
                ) {
                    Ok(fin) => r == Ok::<(), ContractError>(()) && post == fin,
                    Err(e) => r == Err::<(), ContractError>(e) && post == pre,
                }
            },
        }
    }
}

/// Submit a batch of per-token prices together with the reference
/// prices the collaborator supplied for them, through the freshness
/// gate and the deviation tracker. All or nothing: a rejected or
/// failed batch leaves the store untouched.
#[verifier::loop_isolation(false)]
pub fn set_prices(
    state: &mut FeedState,
    sender: &String,
    block: &BlockEnv,
    tokens: &Vec<String>,
    prices: &Vec<u128>,
    ref_prices: &Vec<u128>,
    timestamp: u64,
) -> (r: Result<(), ContractError>)
    requires
        old(state).wf(),
    ensures
        final(state).wf(),
        set_prices_post(
            old(state)@,
            final(state)@,
            sender@,
            *block,
            tokens@,
            prices@,
            ref_prices@,
            timestamp,
            r,
        ),
{
    if let Err(e) = only_updater(state, sender) {
        return Err(e);
    }
    let n = tokens.len();
    if prices.len() != n || ref_prices.len() != n {
        return Err(ContractError::InvalidLength);
    }
    let mut work = state.duplicate();
    let should_update = match set_last_updated_values(&mut work, block, timestamp) {
        Ok(b) => b,
        Err(e) => {
            return Err(e);
        },
    };
    if !should_update {
        return Ok(());
    }
    let ghost mid = work@;
    let block_time = block.time;
    proof {
        assert(tokens@.skip(0) =~= tokens@);
        assert(prices@.skip(0) =~= prices@);
        assert(ref_prices@.skip(0) =~= ref_prices@);
    }
    let mut i: usize = 0;
    while i < n
        invariant
            work.wf(),
            n == tokens@.len(),
            prices@.len() == n,
            ref_prices@.len() == n,
            i <= n,
            ingest_fold(mid, block_time, tokens@, prices@, ref_prices@) == ingest_fold(
                work@,
                block_time,
                tokens@.skip(i as int),
                prices@.skip(i as int),
                ref_prices@.skip(i as int),
            ),
        decreases n - i,
    {
        proof {
            lemma_ingest_fold_step(work@, block_time, tokens@, prices@, ref_prices@, i as int);
        }
        let token = &tokens[i];
        if let Err(e) = set_price(&mut work, block_time, token, prices[i], ref_prices[i]) {
            return Err(e);
        }
        i = i + 1;
    }
    proof {
        assert(tokens@.skip(n as int).len() == 0);
    }
    *state = work;
    Ok(())
}

/// The number of packed slots the decoder reads: four per word, but
/// never beyond the registry — a short registry silently truncates
/// the excess.
pub open spec fn slots_end(words: int, registry: int) -> int {
    if 4 * words <= registry {
        4 * words
    } else {
        registry
    }
}

/// Decode slot `idx` of the word stream against the registry and
/// ingest it: the raw 64-bit price is rescaled by the slot token's
/// precision onto the global scale.
pub open spec fn compact_step(
    pre: FeedView,
    block_timestamp: u64,
    registry: Seq<TokenDataView>,
    refs: Seq<u128>,
    words: Seq<[u8; 32]>,
    idx: int,
) -> Result<FeedView, ContractError>
    recommends
        0 <= idx < slots_end(words.len() as int, registry.len() as int),
        refs.len() == registry.len(),
{
    let raw = packed_slot(words[idx / 4]@, idx % 4);
    let precision = registry[idx].token_precision;
    if precision == 0 || raw * PRICE_PRECISION > u128::MAX {
        Err(ContractError::Computation)
    } else {
        set_price_step(
            pre,
            block_timestamp,
            registry[idx].token,
            rescaled(raw as int, precision as int) as u128,
            refs[idx],
        )
    }
}

/// Decode and ingest the packed slots `idx..end` in order.
pub open spec fn compact_fold(
    pre: FeedView,
    block_timestamp: u64,
    registry: Seq<TokenDataView>,
    refs: Seq<u128>,
    words: Seq<[u8; 32]>,
    idx: int,
    end: int,
) -> Result<FeedView, ContractError>
    decreases end - idx,
{
    if idx >= end {
        Ok(pre)
    } else {
        match compact_step(pre, block_timestamp, registry, refs, words, idx) {
            Ok(mid) => compact_fold(mid, block_timestamp, registry, refs, words, idx + 1, end),
            Err(e) => Err(e),
        }
    }
}

/// Decode a stream of packed words against the registry and ingest
/// each populated slot, stopping at the registry's end.
#[verifier::loop_isolation(false)]
fn ingest_compact(
    work: &mut FeedState,
    block_timestamp: u64,
    words: &Vec<[u8; 32]>,
    ref_prices: &Vec<u128>,
) -> (r: Result<(), ContractError>)
    requires
        old(work).wf(),
        ref_prices@.len() == old(work)@.token_data.len(),
    ensures
        final(work).wf(),
        match compact_fold(
            old(work)@,
            block_timestamp,
            old(work)@.token_data,
            ref_prices@,
            words@,
            0,
            slots_end(words@.len() as int, old(work)@.token_data.len() as int),
        ) {
            Ok(fin) => r == Ok::<(), ContractError>(()) && final(work)@ == fin,
            Err(e) => r == Err::<(), ContractError>(e),
        },
{
    let ghost registry = work@.token_data;
    let ghost refs = ref_prices@;
    let reg_len = work.token_data.len();
    let words_len = words.len();
    let end: usize = if 4u128 * (words_len as u128) <= reg_len as u128 {
        4 * words_len
    } else {
        reg_len
    };
    let ghost spec_end = slots_end(words@.len() as int, registry.len() as int);
    let mut idx: usize = 0;
    while idx < end
        invariant
            work.wf(),
            end == spec_end,
            spec_end == slots_end(words@.len() as int, registry.len() as int),
            registry.len() == work@.token_data.len(),
            work@.token_data == registry,
            refs == ref_prices@,
            refs.len() == registry.len(),
            end <= registry.len(),
            4 * words@.len() >= end,
            idx <= end,
            compact_fold(old(work)@, block_timestamp, registry, refs, words@, 0, spec_end)
                == compact_fold(work@, block_timestamp, registry, refs, words@, idx as int, spec_end),
        decreases end - idx,
    {
        let word_idx = idx / 4;
        let slot = idx % 4;
        let raw = packed_price(words[word_idx].as_slice(), slot);
        let token = work.token_data[idx].token.clone();
        let precision = work.token_data[idx].token_precision;
        proof {
            assert(raw == packed_slot(words@[idx as int / 4]@, idx as int % 4));
            assert(token@ == registry[idx as int].token);
            assert(precision == registry[idx as int].token_precision);
        }
        let adjusted_price = match scale_to_global(raw, precision) {
            Ok(p) => p,
            Err(e) => {
                return Err(e);
            },
        };
        if let Err(e) = set_price(work, block_timestamp, &token, adjusted_price, ref_prices[idx]) {
            return Err(e);
        }
        idx = idx + 1;
    }
    Ok(())
}

/// What a compacted batch submission does: the reference prices must
/// align with the registry, the freshness gate decides, and an
/// admitted batch decodes and ingests exactly the slots the registry
/// covers — or leaves the store untouched on any failure.
pub open spec fn set_compacted_prices_post(
    pre: FeedView,
    post: FeedView,
    block: BlockEnv,
    words: Seq<[u8; 32]>,
    refs: Seq<u128>,
    timestamp: u64,
    r: Result<(), ContractError>,
) -> bool {
    if refs.len() != pre.token_data.len() {
        post == pre && r == Err::<(), ContractError>(ContractError::InvalidLength)
    } else {
        match admit_decision(pre, block, timestamp) {
            Err(e) => post == pre && r == Err::<(), ContractError>(e),
            Ok(false) => post == pre && r == Ok::<(), ContractError>(()),
            Ok(true) => {
                match compact_fold(
                    admitted_view(pre, block, timestamp),
                    block.time,
                    pre.token_data,
                    refs,
                    words,
                    0,
                    slots_end(words.len() as int, pre.token_data.len() as int),
                ) {
                    Ok(fin) => r == Ok::<(), ContractError>(()) && post == fin,
                    Err(e) => r == Err::<(), ContractError>(e) && post == pre,
                }
            },
        }
    }
}

/// Submit prices packed four to a word, for the tokens of the
/// registry in order. All or nothing.
pub fn set_compacted_prices(
    state: &mut FeedState,
    block: &BlockEnv,
    price_bit_array: &Vec<[u8; 32]>,
    timestamp: u64,
    ref_prices: &Vec<u128>,
) -> (r: Result<(), ContractError>)
    requires
        old(state).wf(),
    ensures
        final(state).wf(),
        set_compacted_prices_post(
            old(state)@,
            final(state)@,
            *block,
            price_bit_array@,
            ref_prices@,
            timestamp,
            r,
        ),
{
    if ref_prices.len() != state.token_data.len() {
        return Err(ContractError::InvalidLength);
    }
    let mut work = state.duplicate();
    let should_update = match set_last_updated_values(&mut work, block, timestamp) {
        Ok(b) => b,
        Err(e) => {
            return Err(e);
        },
    };
    if !should_update {
        return Ok(());
    }
    match ingest_compact(&mut work, block.time, price_bit_array, ref_prices) {
        Ok(()) => {
            *state = work;
            Ok(())
        },
        Err(e) => Err(e),
    }
}

/// What a single-word packed submission does; the decode primitive of
/// the compacted path applied to a word stream of length one.
pub open spec fn set_prices_with_bits_post(
    pre: FeedView,
    post: FeedView,
    block: BlockEnv,
    price_bits: [u8; 32],
    refs: Seq<u128>,
    timestamp: u64,
    r: Result<(), ContractError>,
) -> bool {
    set_compacted_prices_post(pre, post, block, seq![price_bits], refs, timestamp, r)
}

/// Submit one packed word of prices; the first four registry tokens
/// receive its slots.
pub fn _set_prices_with_bits(
    state: &mut FeedState,
    block: &BlockEnv,
    price_bits: &[u8; 32],
    timestamp: u64,
    ref_prices: &Vec<u128>,
) -> (r: Result<(), ContractError>)
    requires
        old(state).wf(),
    ensures
        final(state).wf(),
        set_prices_with_bits_post(
            old(state)@,
            final(state)@,
            *block,
            *price_bits,
            ref_prices@,
            timestamp,
            r,
        ),
{
    let mut words: Vec<[u8; 32]> = Vec::new();
    words.push(*price_bits);
    proof {
        assert(words@ =~= seq![*price_bits]);
    }
    if ref_prices.len() != state.token_data.len() {
        return Err(ContractError::InvalidLength);
    }
    let mut work = state.duplicate();
    let should_update = match set_last_updated_values(&mut work, block, timestamp) {
        Ok(b) => b,
        Err(e) => {
            return Err(e);
        },
    };
    if !should_update {
        return Ok(());
    }
    match ingest_compact(&mut work, block.time, &words, ref_prices) {
        Ok(()) => {
            *state = work;
            Ok(())
        },
        Err(e) => Err(e),
    }
}

/// Submit one packed word of prices.
pub fn set_prices_with_bits(
    state: &mut FeedState,
    block: &BlockEnv,
    price_bits: &[u8; 32],
    timestamp: u64,
    ref_prices: &Vec<u128>,
) -> (r: Result<(), ContractError>)
    requires
        old(state).wf(),
    ensures
        final(state).wf(),
        set_prices_with_bits_post(
            old(state)@,
            final(state)@,
            *block,
            *price_bits,
            ref_prices@,
            timestamp,
            r,
        ),
{
    _set_prices_with_bits(state, block, price_bits, timestamp, ref_prices)
}

proof fn lemma_ingest_fold_watermark(
    pre: FeedView,
    block_timestamp: u64,
    tokens: Seq<String>,
    prices: Seq<u128>,
    refs: Seq<u128>,
)
    requires
        tokens.len() == prices.len(),
        tokens.len() == refs.len(),
        ingest_fold(pre, block_timestamp, tokens, prices, refs) is Ok,
    ensures
        ingest_fold(pre, block_timestamp, tokens, prices, refs)->Ok_0.last_updated
            == pre.last_updated,
    decreases tokens.len(),
{
    if tokens.len() > 0 {
        match set_price_step(pre, block_timestamp, tokens[0]@, prices[0], refs[0]) {
            Ok(mid) => {
                lemma_ingest_fold_watermark(
                    mid,
                    block_timestamp,
                    tokens.drop_first(),
                    prices.drop_first(),
                    refs.drop_first(),
                );
            },
            Err(_) => {},
        }
    }
}

/// Monotonic watermark: however a batch submission ends, neither
/// watermark decreases, provided the chain's block height itself did
/// not go backwards; and a batch whose timestamp is older than the
/// watermark succeeds as a no-op, mutating nothing.
pub proof fn lemma_watermark_monotone(
    pre: FeedView,
    post: FeedView,
    sender: Seq<char>,
    block: BlockEnv,
    tokens: Seq<String>,
    prices: Seq<u128>,
    refs: Seq<u128>,
    timestamp: u64,
    r: Result<(), ContractError>,
)
    requires
        set_prices_post(pre, post, sender, block, tokens, prices, refs, timestamp, r),
        block.height >= pre.last_updated.last_updated_block,
    ensures
        post.last_updated.last_updated_at >= pre.last_updated.last_updated_at,
        post.last_updated.last_updated_block >= pre.last_updated.last_updated_block,
        pre.updater_of(sender) && tokens.len() == prices.len() && tokens.len() == refs.len()
            && admit_decision(pre, block, timestamp) == Ok::<bool, ContractError>(false) ==> post
            == pre && r == Ok::<(), ContractError>(()),
{
    if pre.updater_of(sender) && tokens.len() == prices.len() && tokens.len() == refs.len() {
        match admit_decision(pre, block, timestamp) {
            Ok(true) => {
                let mid = admitted_view(pre, block, timestamp);
                match ingest_fold(mid, block.time, tokens, prices, refs) {
                    Ok(fin) => {
                        lemma_ingest_fold_watermark(mid, block.time, tokens, prices, refs);
                    },
                    Err(_) => {},
                }
            },
            _ => {},
        }
    }
}

proof fn lemma_compact_fold_untouched(
    pre: FeedView,
    block_timestamp: u64,
    registry: Seq<TokenDataView>,
    refs: Seq<u128>,
    words: Seq<[u8; 32]>,
    idx: int,
    end: int,
    token: Seq<char>,
)
    requires
        end <= registry.len(),
        forall|i: int| idx <= i < end ==> registry[i].token != token,
        compact_fold(pre, block_timestamp, registry, refs, words, idx, end) is Ok,
    ensures
        compact_fold(
            pre,
            block_timestamp,
            registry,
            refs,
            words,
            idx,
            end,
        )->Ok_0.price_of(token) == pre.price_of(token),
        compact_fold(
            pre,
            block_timestamp,
            registry,
            refs,
            words,
            idx,
            end,
        )->Ok_0.data_of(token) == pre.data_of(token),
    decreases end - idx,
{
    if idx < end {
        match compact_step(pre, block_timestamp, registry, refs, words, idx) {
            Ok(mid) => {
                assert(registry[idx].token != token);
                lemma_compact_fold_untouched(
                    mid,
                    block_timestamp,
                    registry,
                    refs,
                    words,
                    idx + 1,
                    end,
                    token,
                );
            },
            Err(_) => {},
        }
    }
}

/// Decoder truncation: decoding a packed word stream against a short
/// registry ingests only the slots the registry covers — the price
/// and deviation record of any token outside the covered prefix are
/// exactly what they were.
pub proof fn lemma_decoder_truncation(
    pre: FeedView,
    post: FeedView,
    block: BlockEnv,
    words: Seq<[u8; 32]>,
    refs: Seq<u128>,
    timestamp: u64,
    r: Result<(), ContractError>,
    token: Seq<char>,
)
    requires
        set_compacted_prices_post(pre, post, block, words, refs, timestamp, r),
        r is Ok,
        forall|i: int|
            0 <= i < slots_end(words.len() as int, pre.token_data.len() as int)
                ==> pre.token_data[i].token != token,
    ensures
        post.price_of(token) == pre.price_of(token),
        post.data_of(token) == pre.data_of(token),
{
    if refs.len() == pre.token_data.len() {
        match admit_decision(pre, block, timestamp) {
            Ok(true) => {
                let mid = admitted_view(pre, block, timestamp);
                let end = slots_end(words.len() as int, pre.token_data.len() as int);
                match compact_fold(mid, block.time, pre.token_data, refs, words, 0, end) {
                    Ok(fin) => {
                        lemma_compact_fold_untouched(
                            mid,
                            block.time,
                            pre.token_data,
                            refs,
                            words,
                            0,
                            end,
                            token,
                        );
                    },
                    Err(_) => {},
                }
            },
            _ => {},
        }
    }
}

/// An end index clamped to the window the position router allows.
pub open spec fn clamped_index(end_index: u128, start: u128, max_positions: u128) -> u128
    recommends
        start + max_positions <= u128::MAX,
{
    if end_index > start + max_positions {
        (start + max_positions) as u128
    } else {
        end_index
    }
}

/// What the batch-execution variant does: an updater submits one
/// packed word, and on success the two end indices for the position
/// router's queues are clamped to the allowed windows and handed back
/// for the host to act on.
pub open spec fn set_prices_with_bits_and_execute_post(
    pre: FeedView,
    post: FeedView,
    sender: Seq<char>,
    block: BlockEnv,
    router: PositionRouterState,
    price_bits: [u8; 32],
    refs: Seq<u128>,
    timestamp: u64,
    end_index_for_increase_positions: u128,
    end_index_for_decrease_positions: u128,
    max_increase_positions: u128,
    max_decrease_positions: u128,
    r: Result<(u128, u128), ContractError>,
) -> bool {
    if !pre.updater_of(sender) {
        post == pre && r == Err::<(u128, u128), ContractError>(ContractError::Forbidden)
    } else if refs.len() != pre.token_data.len() {
        post == pre && r == Err::<(u128, u128), ContractError>(ContractError::InvalidLength)
    } else {
        let clamp_ok = router.increase_position_request_keys_start + max_increase_positions
            <= u128::MAX && router.decrease_position_request_keys_start + max_decrease_positions
            <= u128::MAX;
        let clamped = (
            clamped_index(
                end_index_for_increase_positions,
                router.increase_position_request_keys_start,
                max_increase_positions,
            ),
            clamped_index(
                end_index_for_decrease_positions,
                router.decrease_position_request_keys_start,
                max_decrease_positions,
            ),
        );
        match admit_decision(pre, block, timestamp) {
            Err(e) => post == pre && r == Err::<(u128, u128), ContractError>(e),
            Ok(false) => {
                if clamp_ok {
                    post == pre && r == Ok::<(u128, u128), ContractError>(clamped)
                } else {
                    post == pre && r == Err::<(u128, u128), ContractError>(
                        ContractError::Computation,
                    )
                }
            },
            Ok(true) => {
                match compact_fold(
                    admitted_view(pre, block, timestamp),
                    block.time,
                    pre.token_data,
                    refs,
                    seq![price_bits],
                    0,
                    slots_end(1, pre.token_data.len() as int),
                ) {
                    Ok(fin) => {
                        if clamp_ok {
                            r == Ok::<(u128, u128), ContractError>(clamped) && post == fin
                        } else {
                            post == pre && r == Err::<(u128, u128), ContractError>(
                                ContractError::Computation,
                            )
                        }
                    },
                    Err(e) => r == Err::<(u128, u128), ContractError>(e) && post == pre,
                }
            },
        }
    }
}

/// Submit one packed word as an updater and compute the clamped end
/// indices for the position router's batch execution; the host builds
/// the outbound messages from them.
pub fn set_prices_with_bits_and_execute(
    state: &mut FeedState,
    sender: &String,
    block: &BlockEnv,
    position_router: &PositionRouterState,
    price_bits: &[u8; 32],
    timestamp: u64,
    ref_prices: &Vec<u128>,
    end_index_for_increase_positions: u128,
    end_index_for_decrease_positions: u128,
    max_increase_positions: u128,
    max_decrease_positions: u128,
) -> (r: Result<(u128, u128), ContractError>)
    requires
        old(state).wf(),
    ensures
        final(state).wf(),
        set_prices_with_bits_and_execute_post(
            old(state)@,
            final(state)@,
            sender@,
            *block,
            *position_router,
            *price_bits,
            ref_prices@,
            timestamp,
            end_index_for_increase_positions,
            end_index_for_decrease_positions,
            max_increase_positions,
            max_decrease_positions,
            r,
        ),
{
    if let Err(e) = only_updater(state, sender) {
        return Err(e);
    }
    let mut words: Vec<[u8; 32]> = Vec::new();
    words.push(*price_bits);
    proof {
        assert(words@ =~= seq![*price_bits]);
    }
    if ref_prices.len() != state.token_data.len() {
        return Err(ContractError::InvalidLength);
    }
    let mut work = state.duplicate();
    let should_update = match set_last_updated_values(&mut work, block, timestamp) {
        Ok(b) => b,
        Err(e) => {
            return Err(e);
        },
    };
    if should_update {
        if let Err(e) = ingest_compact(&mut work, block.time, &words, ref_prices) {
            return Err(e);
        }
    }
    let max_end_index_for_increase = match position_router
        .increase_position_request_keys_start
        .checked_add(max_increase_positions) {
        Some(x) => x,
        None => {
            return Err(ContractError::Computation);
        },
    };
    let max_end_index_for_decrease = match position_router
        .decrease_position_request_keys_start
        .checked_add(max_decrease_positions) {
        Some(x) => x,
        None => {
            return Err(ContractError::Computation);
        },
    };
    let adjusted_end_index_for_increase_positions =
        if end_index_for_increase_positions > max_end_index_for_increase {
        max_end_index_for_increase
    } else {
        end_index_for_increase_positions
    };
    let adjusted_end_index_for_decrease_positions =
        if end_index_for_decrease_positions > max_end_index_for_decrease {
        max_end_index_for_decrease
    } else {
        end_index_for_decrease_positions
    };
    if should_update {
        *state = work;
    }
    Ok((adjusted_end_index_for_increase_positions, adjusted_end_index_for_decrease_positions))
}

} // verus!
