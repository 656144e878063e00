//! The Row Validator and the Data Source Loader: turning one raw joined row
//! into a validated `Source`, deriving each row's creation point, and
//! assembling the ordered list of dynamic data sources for a deployment.

use vstd::prelude::*;

use bigdecimal::BigDecimal;

use crate::decimal::{decimal_to_text, decimal_to_u64, text_of, u64_of};
use crate::types::{
    BlockRange, DecodedRow, DecodedRowView, RawRow, Source, SourceView, StartBlock, StartBlockView,
    StoreError, StoreErrorView, StoredDynamicDataSource, StoredDynamicDataSourceView, Violation,
    ViolationView,
};

verus! {

/// What validating one row's source fields returns, for every input: the
/// address must be present and exactly 20 bytes; a present start block must
/// have converted to a `u64`, an absent one defaults to 0.
pub open spec fn source_spec(
    deployment: Seq<char>,
    ds_id: Seq<char>,
    address: Option<Seq<u8>>,
    abi: Seq<char>,
    start_block: Option<StartBlockView>,
) -> Result<SourceView, StoreErrorView> {
    match address {
        None => Err(
            StoreErrorView::ConstraintViolation(
                ViolationView::MissingAddress { ds_id, deployment },
            ),
        ),
        Some(a) => if a.len() != 20 {
            Err(
                StoreErrorView::ConstraintViolation(
                    ViolationView::AddressLength { ds_id, deployment, address: a },
                ),
            )
        } else {
            match start_block {
                None => Ok(SourceView { address: Some(a), abi, start_block: 0 }),
                Some(sb) => match sb.value {
                    Some(v) => Ok(SourceView { address: Some(a), abi, start_block: v }),
                    None => Err(
                        StoreErrorView::ConstraintViolation(
                            ViolationView::StartBlockNotU64 { ds_id, deployment, value: sb.text },
                        ),
                    ),
                },
            }
        },
    }
}

/// `source_spec` over the view of an executable result.
pub open spec fn source_result_view(r: Result<Source, StoreError>) -> Result<
    SourceView,
    StoreErrorView,
> {
    match r {
        Ok(s) => Ok(s@),
        Err(e) => Err(e@),
    }
}

/// View of an optional byte vector.
pub open spec fn opt_bytes_view(a: Option<Vec<u8>>) -> Option<Seq<u8>> {
    match a {
        Some(v) => Some(v@),
        None => None,
    }
}

/// View of an optional decoded start block.
pub open spec fn opt_start_block_view(sb: Option<StartBlock>) -> Option<StartBlockView> {
    match sb {
        Some(s) => Some(s@),
        None => None,
    }
}

/// The one decoding of a raw row under the named conversion results: every
/// plain field carried over, and a present start block decoded to what the
/// conversion returns of it and how the decimal renders.
pub open spec fn decoded_of(raw: RawRow) -> DecodedRowView {
    DecodedRowView {
        ds_id: raw.ds_id@,
        name: raw.name@,
        context: match raw.context {
            Some(c) => Some(c@),
            None => None,
        },
        address: match raw.address {
            Some(a) => Some(a@),
            None => None,
        },
        abi: raw.abi@,
        start_block: match raw.start_block {
            Some(d) => Some(StartBlockView { value: u64_of(d), text: text_of(d) }),
            None => None,
        },
        block_range: raw.block_range,
    }
}

/// `decoded_of` over a whole row sequence.
pub open spec fn decoded_rows_of(raws: Seq<RawRow>) -> Seq<DecodedRowView> {
    raws.map_values(|r: RawRow| decoded_of(r))
}

/// The Row Validator on plain values: the raw tuple of one row's source
/// fields, with the stored decimal already put through the numeric
/// conversion, becomes a validated `Source` or a `ConstraintViolation`.
pub fn source_from_parts(
    deployment: &str,
    ds_id: &str,
    address: Option<Vec<u8>>,
    abi: String,
    start_block: Option<StartBlock>,
) -> (r: Result<Source, StoreError>)
    ensures
        source_result_view(r) == source_spec(
            deployment@,
            ds_id@,
            opt_bytes_view(address),
            abi@,
            opt_start_block_view(start_block),
        ),
{
    let address = match address {
        Some(a) => a,
        None => {
            return Err(
                StoreError::ConstraintViolation(
                    Violation::MissingAddress {
                        ds_id: ds_id.to_owned(),
                        deployment: deployment.to_owned(),
                    },
                ),
            );
        },
    };
    if address.len() != 20 {
        return Err(
            StoreError::ConstraintViolation(
                Violation::AddressLength {
                    ds_id: ds_id.to_owned(),
                    deployment: deployment.to_owned(),
                    address,
                },
            ),
        );
    }
    let start_block: u64 = match start_block {
        None => 0,
        Some(sb) => match sb.value {
            Some(v) => v,
            None => {
                return Err(
                    StoreError::ConstraintViolation(
                        Violation::StartBlockNotU64 {
                            ds_id: ds_id.to_owned(),
                            deployment: deployment.to_owned(),
                            value: sb.text,
                        },
                    ),
                );
            },
        },
    };
    Ok(Source { address: Some(address), abi, start_block })
}

/// The Row Validator as the loader uses it: runs the numeric conversion on
/// the stored decimal, then validates on plain values. The result is
/// exactly what `source_spec` says of the start block's decoding under the
/// named conversion results.
pub fn to_source(
    deployment: &str,
    ds_id: &str,
    address: Option<Vec<u8>>,
    abi: String,
    start_block: Option<BigDecimal>,
) -> (r: Result<Source, StoreError>)
    ensures
        source_result_view(r) == source_spec(
            deployment@,
            ds_id@,
            opt_bytes_view(address),
            abi@,
            match start_block {
                Some(d) => Some(StartBlockView { value: u64_of(d), text: text_of(d) }),
                None => None,
            },
        ),
{
    let decoded: Option<StartBlock> = match start_block {
        None => None,
        Some(d) => Some(StartBlock { value: decimal_to_u64(&d), text: decimal_to_text(&d) }),
    };
    source_from_parts(deployment, ds_id, address, abi, decoded)
}

/// The range decoder: the inclusive lower bound of a row's block range, or
/// nothing when the range is unbounded below.
pub fn first_block_in_range(range: &BlockRange) -> (r: Option<i32>)
    ensures
        r == range.lower,
{
    range.lower
}

/// A row's creation point: the lower bound of its block range, widened to
/// the block-number type (negative stored bounds wrap, as the widening
/// does); `None` when no lower bound was recorded.
pub open spec fn creation_spec(range: BlockRange) -> Option<u64> {
    match range.lower {
        Some(n) => Some(n as u64),
        None => None,
    }
}

/// The ordering rule between a row's creation point and its predecessor's:
/// an absent predecessor creation point (or no predecessor at all) counts
/// as the minimum and admits anything; a present one admits only present
/// creation points at least as large.
pub open spec fn creation_le(prev: Option<u64>, cur: Option<u64>) -> bool {
    match prev {
        None => true,
        Some(p) => cur matches Some(c) && p <= c,
    }
}

/// What loading a deployment's decoded rows returns, walking the rows in
/// order with `prev` the creation point of the row just before them: the
/// first validation failure or ordering violation aborts the whole load,
/// otherwise every row becomes one entry, in order.
pub open spec fn load_rec(
    deployment: Seq<char>,
    rows: Seq<DecodedRowView>,
    prev: Option<u64>,
) -> Result<Seq<StoredDynamicDataSourceView>, StoreErrorView>
    decreases rows.len(),
{
    if rows.len() == 0 {
        Ok(Seq::empty())
    } else {
        let row = rows[0];
        match source_spec(deployment, row.ds_id, row.address, row.abi, row.start_block) {
            Err(e) => Err(e),
            Ok(src) => {
                let creation = creation_spec(row.block_range);
                if !creation_le(prev, creation) {
                    Err(
                        StoreErrorView::ConstraintViolation(
                            ViolationView::UnorderedCreationBlocks,
                        ),
                    )
                } else {
                    match load_rec(deployment, rows.drop_first(), creation) {
                        Err(e) => Err(e),
                        Ok(rest) => Ok(
                            seq![
                                StoredDynamicDataSourceView {
                                    name: row.name,
                                    source: src,
                                    context: row.context,
                                    creation_block: creation,
                                },
                            ] + rest,
                        ),
                    }
                }
            },
        }
    }
}

/// What loading a deployment's decoded rows returns: `load_rec` started
/// with no predecessor.
pub open spec fn load_spec(deployment: Seq<char>, rows: Seq<DecodedRowView>) -> Result<
    Seq<StoredDynamicDataSourceView>,
    StoreErrorView,
> {
    load_rec(deployment, rows, None)
}

/// View of a sequence of decoded rows.
pub open spec fn rows_view(rows: Seq<DecodedRow>) -> Seq<DecodedRowView> {
    rows.map_values(|d: DecodedRow| d@)
}

/// View of a sequence of assembled entries.
pub open spec fn entries_view(v: Seq<StoredDynamicDataSource>) -> Seq<
    StoredDynamicDataSourceView,
> {
    v.map_values(|d: StoredDynamicDataSource| d@)
}

/// `load_spec` over the view of an executable result.
pub open spec fn load_result_view(r: Result<Vec<StoredDynamicDataSource>, StoreError>) -> Result<
    Seq<StoredDynamicDataSourceView>,
    StoreErrorView,
> {
    match r {
        Ok(v) => Ok(entries_view(v@)),
        Err(e) => Err(e@),
    }
}

/// The Data Source Loader on decoded rows: validates each row in order,
/// derives its creation point, and enforces that creation points never
/// decrease; any violation discards everything accumulated so far.
#[verifier::loop_isolation(false)]
pub fn load_from_parts(deployment: &str, rows: Vec<DecodedRow>) -> (r: Result<
    Vec<StoredDynamicDataSource>,
    StoreError,
>)
    ensures
        load_result_view(r) == load_spec(deployment@, rows_view(rows@)),
{
    let ghost all = rows_view(rows@);
    let mut remaining = rows;
    let mut out: Vec<StoredDynamicDataSource> = Vec::new();
    let mut prev: Option<u64> = None;
    proof {
        assert(all.skip(0) =~= all);
        assert(forall|rest: Seq<StoredDynamicDataSourceView>|
            (entries_view(out@) + rest) =~= rest);
    }
    while remaining.len() > 0
        invariant
            out@.len() + remaining@.len() == all.len(),
            all.skip(out@.len() as int) == rows_view(remaining@),
            load_rec(deployment@, all, None) == (match load_rec(
                deployment@,
                all.skip(out@.len() as int),
                prev,
            ) {
                Ok(rest) => Ok::<_, StoreErrorView>(entries_view(out@) + rest),
                Err(e) => Err(e),
            }),
        decreases remaining.len(),
    {
        let ghost k = out@.len() as int;
        let ghost old_remaining = remaining@;
        let row = remaining.remove(0);
        let ghost rowv = row@;
        proof {
            assert(rows_view(old_remaining)[0] == rowv);
            assert(all.skip(k)[0] == rowv);
            assert(all.skip(k).len() == old_remaining.len());
            assert(rows_view(old_remaining).drop_first() =~= rows_view(remaining@));
            assert(all.skip(k).drop_first() =~= all.skip(k + 1));
        }
        let DecodedRow { ds_id, name, context, address, abi, start_block, block_range } = row;
        proof {
            assert(ds_id@ == rowv.ds_id);
            assert(name@ == rowv.name);
            assert(abi@ == rowv.abi);
            assert(opt_bytes_view(address) == rowv.address);
            assert(opt_start_block_view(start_block) == rowv.start_block);
            assert(block_range == rowv.block_range);
            assert(match context {
                Some(c) => Some(c@),
                None => None::<Seq<char>>,
            } == rowv.context);
        }
        let source = match source_from_parts(deployment, ds_id.as_str(), address, abi, start_block) {
            Ok(s) => s,
            Err(e) => {
                proof {
                    assert(load_rec(deployment@, all.skip(k), prev) == Err::<
                        Seq<StoredDynamicDataSourceView>,
                        StoreErrorView,
                    >(e@));
                }
                return Err(e);
            },
        };
        let ghost srcv = source@;
        let creation: Option<u64> = match first_block_in_range(&block_range) {
            Some(n) => Some(#[verifier::truncate] (n as u64)),
            None => None,
        };
        proof {
            assert(creation == creation_spec(rowv.block_range));
        }
        let ordered = match (prev, creation) {
            (None, _) => true,
            (Some(p), Some(c)) => p <= c,
            (Some(_), None) => false,
        };
        proof {
            assert(ordered == creation_le(prev, creation));
        }
        if !ordered {
            proof {
                assert(load_rec(deployment@, all.skip(k), prev) == Err::<
                    Seq<StoredDynamicDataSourceView>,
                    StoreErrorView,
                >(StoreErrorView::ConstraintViolation(ViolationView::UnorderedCreationBlocks)));
            }
            return Err(StoreError::ConstraintViolation(Violation::UnorderedCreationBlocks));
        }
        let entry = StoredDynamicDataSource { name, source, context, creation_block: creation };
        let ghost old_out = out@;
        let ghost prev0 = prev;
        out.push(entry);
        prev = creation;
        proof {
            assert(entry@ == StoredDynamicDataSourceView {
                name: rowv.name,
                source: srcv,
                context: rowv.context,
                creation_block: creation,
            });
            assert(load_rec(deployment@, all.skip(k), prev0) == (match load_rec(
                deployment@,
                all.skip(k + 1),
                creation,
            ) {
                Ok(rest) => Ok::<_, StoreErrorView>(seq![entry@] + rest),
                Err(e) => Err(e),
            }));
            assert(entries_view(out@) =~= entries_view(old_out) + seq![entry@]);
            assert(forall|rest: Seq<StoredDynamicDataSourceView>|
                (entries_view(old_out) + (seq![entry@] + rest)) =~= (entries_view(out@) + rest));
        }
    }
    proof {
        assert(all.skip(out@.len() as int) =~= Seq::<DecodedRowView>::empty());
        assert(entries_view(out@) + Seq::<StoredDynamicDataSourceView>::empty() =~= entries_view(
            out@,
        ));
    }
    Ok(out)
}

/// The Data Source Loader: turns each raw joined row of one deployment into
/// a validated, ordered entry, or fails without returning anything. The
/// result is exactly what `load_spec` says of the rows' decoding under the
/// named conversion results; an `Ok` result in addition directly carries
/// one entry per row, in row order, with creation points never decreasing.
#[verifier::loop_isolation(false)]
pub fn load(deployment: &str, rows: Vec<RawRow>) -> (r: Result<
    Vec<StoredDynamicDataSource>,
    StoreError,
>)
    ensures
        load_result_view(r) == load_spec(deployment@, decoded_rows_of(rows@)),
        r matches Ok(v) ==> {
            &&& v@.len() == rows@.len()
            &&& forall|i: int| 0 <= i < v@.len() ==> (#[trigger] v@[i]).creation_block
                == creation_spec(rows@[i].block_range)
            &&& forall|i: int| 0 <= i < v@.len() ==> (#[trigger] v@[i]).name@ == rows@[i].name@
            &&& forall|i: int| 0 < i < v@.len() ==> creation_le(
                v@[i - 1].creation_block,
                (#[trigger] v@[i]).creation_block,
            )
        },
{
    let ghost raw = rows@;
    let mut remaining = rows;
    let mut decoded: Vec<DecodedRow> = Vec::new();
    while remaining.len() > 0
        invariant
            decoded@.len() + remaining@.len() == raw.len(),
            raw.skip(decoded@.len() as int) == remaining@,
            forall|i: int| 0 <= i < decoded@.len() ==> rows_view(decoded@)[i]
                == #[trigger] decoded_of(raw[i]),
        decreases remaining.len(),
    {
        let ghost k = decoded@.len() as int;
        let row = remaining.remove(0);
        proof {
            assert(raw.skip(k)[0] == row);
            assert(raw.skip(k).drop_first() =~= raw.skip(k + 1));
        }
        let RawRow { ds_id, name, context, address, abi, start_block, block_range } = row;
        let start_block: Option<StartBlock> = match start_block {
            None => None,
            Some(d) => Some(StartBlock { value: decimal_to_u64(&d), text: decimal_to_text(&d) }),
        };
        let dec_row = DecodedRow { ds_id, name, context, address, abi, start_block, block_range };
        let ghost old_decoded = decoded@;
        decoded.push(dec_row);
        proof {
            assert(rows_view(decoded@) =~= rows_view(old_decoded).push(dec_row@));
            assert(forall|i: int| 0 <= i < old_decoded.len() ==> rows_view(decoded@)[i]
                == rows_view(old_decoded)[i]);
            assert(rows_view(decoded@)[k] == dec_row@);
            assert(dec_row@ == decoded_of(raw[k]));
        }
    }
    let ghost dec = rows_view(decoded@);
    proof {
        assert(dec.len() == raw.len());
        assert(decoded_rows_of(raw).len() == raw.len());
        assert(forall|i: int| 0 <= i < raw.len() ==> decoded_rows_of(raw)[i]
            == #[trigger] decoded_of(raw[i]));
        assert(dec =~= decoded_rows_of(raw));
    }
    let r = load_from_parts(deployment, decoded);
    proof {
        assert(load_result_view(r) == load_spec(deployment@, decoded_rows_of(rows@)));
        lemma_load_ordered(deployment@, dec);
        if r is Ok {
            let v = r->Ok_0;
            let list = load_spec(deployment@, dec)->Ok_0;
            assert(entries_view(v@) == list);
            assert(entries_view(v@).len() == v@.len());
            assert(forall|i: int| 0 <= i < v@.len() ==> #[trigger] v@[i]@ == list[i]);
            assert(forall|i: int| 0 <= i < v@.len() ==> entry_of_row(
                deployment@,
                dec[i],
                #[trigger] list[i],
            ));
            assert forall|i: int| 0 <= i < v@.len() implies (#[trigger] v@[i]).creation_block
                == creation_spec(raw[i].block_range) by {
                assert(v@[i]@ == list[i]);
                assert(entry_of_row(deployment@, dec[i], list[i]));
                assert(dec[i] == decoded_of(raw[i]));
            }
            assert forall|i: int| 0 <= i < v@.len() implies (#[trigger] v@[i]).name@
                == raw[i].name@ by {
                assert(v@[i]@ == list[i]);
                assert(entry_of_row(deployment@, dec[i], list[i]));
                assert(dec[i] == decoded_of(raw[i]));
            }
            assert forall|i: int| 0 < i < v@.len() implies creation_le(
                v@[i - 1].creation_block,
                (#[trigger] v@[i]).creation_block,
            ) by {
                assert(v@[i]@ == list[i]);
                assert(v@[i - 1]@ == list[i - 1]);
            }
        }
    }
    r
}

/// For any row whose stored address is exactly 20 bytes, any `Source` that
/// validation returns carries exactly those bytes; and validation succeeds
/// whenever the start block is absent or converted to a `u64`.
pub proof fn lemma_address_preserved(
    deployment: Seq<char>,
    ds_id: Seq<char>,
    address: Seq<u8>,
    abi: Seq<char>,
    start_block: Option<StartBlockView>,
)
    requires
        address.len() == 20,
    ensures
        source_spec(deployment, ds_id, Some(address), abi, start_block) matches Ok(s)
            ==> s.address == Some(address),
        (start_block matches Some(sb) ==> sb.value is Some) ==> source_spec(
            deployment,
            ds_id,
            Some(address),
            abi,
            start_block,
        ) is Ok,
{
}

/// Every `Source` that validation returns is well formed: its address is
/// present and exactly 20 bytes.
pub proof fn lemma_validated_source_wf(
    deployment: Seq<char>,
    ds_id: Seq<char>,
    address: Option<Seq<u8>>,
    abi: Seq<char>,
    start_block: Option<StartBlockView>,
)
    ensures
        source_spec(deployment, ds_id, address, abi, start_block) matches Ok(s) ==> s.wf(),
{
}

/// For any row with a missing address, validation fails with a
/// `ConstraintViolation` naming the data source and its deployment.
pub proof fn lemma_missing_address_rejected(
    deployment: Seq<char>,
    ds_id: Seq<char>,
    abi: Seq<char>,
    start_block: Option<StartBlockView>,
)
    ensures
        source_spec(deployment, ds_id, None, abi, start_block) == Err::<
            SourceView,
            StoreErrorView,
        >(StoreErrorView::ConstraintViolation(ViolationView::MissingAddress { ds_id, deployment })),
{
}

/// For any stored address whose length is not exactly 20 bytes, validation
/// fails with a `ConstraintViolation` carrying the raw bytes, and with them
/// the observed length.
pub proof fn lemma_address_length_rejected(
    deployment: Seq<char>,
    ds_id: Seq<char>,
    address: Seq<u8>,
    abi: Seq<char>,
    start_block: Option<StartBlockView>,
)
    requires
        address.len() != 20,
    ensures
        source_spec(deployment, ds_id, Some(address), abi, start_block) == Err::<
            SourceView,
            StoreErrorView,
        >(
            StoreErrorView::ConstraintViolation(
                ViolationView::AddressLength { ds_id, deployment, address },
            ),
        ),
{
}

/// When no start block is stored, the validated `Source` starts at block 0.
pub proof fn lemma_absent_start_block_defaults(
    deployment: Seq<char>,
    ds_id: Seq<char>,
    address: Seq<u8>,
    abi: Seq<char>,
)
    requires
        address.len() == 20,
    ensures
        source_spec(deployment, ds_id, Some(address), abi, None) == Ok::<
            SourceView,
            StoreErrorView,
        >(SourceView { address: Some(address), abi, start_block: 0 }),
{
}

/// When the stored start block converted to a `u64`, the validated `Source`
/// carries exactly that value.
pub proof fn lemma_start_block_preserved(
    deployment: Seq<char>,
    ds_id: Seq<char>,
    address: Seq<u8>,
    abi: Seq<char>,
    value: u64,
    text: Seq<char>,
)
    requires
        address.len() == 20,
    ensures
        source_spec(
            deployment,
            ds_id,
            Some(address),
            abi,
            Some(StartBlockView { value: Some(value), text }),
        ) == Ok::<SourceView, StoreErrorView>(
            SourceView { address: Some(address), abi, start_block: value },
        ),
{
}

/// How one returned entry relates to the row it came from: name, context
/// and creation point are the row's, and its `Source` is what validating
/// the row returned.
pub open spec fn entry_of_row(
    deployment: Seq<char>,
    row: DecodedRowView,
    entry: StoredDynamicDataSourceView,
) -> bool {
    &&& entry.name == row.name
    &&& entry.context == row.context
    &&& entry.creation_block == creation_spec(row.block_range)
    &&& source_spec(deployment, row.ds_id, row.address, row.abi, row.start_block) == Ok::<
        _,
        StoreErrorView,
    >(entry.source)
}

proof fn lemma_load_rec_entries(
    deployment: Seq<char>,
    rows: Seq<DecodedRowView>,
    prev: Option<u64>,
)
    ensures
        load_rec(deployment, rows, prev) matches Ok(list) ==> {
            &&& list.len() == rows.len()
            &&& forall|i: int| 0 <= i < rows.len() ==> entry_of_row(
                deployment,
                rows[i],
                #[trigger] list[i],
            )
            &&& list.len() > 0 ==> creation_le(prev, list[0].creation_block)
            &&& forall|i: int| 0 < i < list.len() ==> creation_le(
                list[i - 1].creation_block,
                #[trigger] list[i].creation_block,
            )
        },
    decreases rows.len(),
{
    if rows.len() > 0 {
        let creation = creation_spec(rows[0].block_range);
        lemma_load_rec_entries(deployment, rows.drop_first(), creation);
        if load_rec(deployment, rows, prev) is Ok {
            let list = load_rec(deployment, rows, prev)->Ok_0;
            let rest = load_rec(deployment, rows.drop_first(), creation)->Ok_0;
            assert(list == seq![list[0]] + rest);
            assert(forall|i: int| 0 < i < list.len() ==> list[i] == rest[i - 1]);
            assert(forall|i: int| 0 < i < rows.len() ==> rows.drop_first()[i - 1] == rows[i]);
        }
    }
}

/// Every successful load returns one entry per row, in row order — the
/// entry at each index comes from the row at that index, so rows that share
/// a creation point keep their relative insertion order — and creation
/// points never decrease along the list, an absent one counting as the
/// minimum.
pub proof fn lemma_load_ordered(deployment: Seq<char>, rows: Seq<DecodedRowView>)
    ensures
        load_spec(deployment, rows) matches Ok(list) ==> {
            &&& list.len() == rows.len()
            &&& forall|i: int| 0 <= i < rows.len() ==> entry_of_row(
                deployment,
                rows[i],
                #[trigger] list[i],
            )
            &&& forall|i: int| 0 < i < list.len() ==> creation_le(
                list[i - 1].creation_block,
                #[trigger] list[i].creation_block,
            )
        },
{
    lemma_load_rec_entries(deployment, rows, None);
}

} // verus!
