//! Domain types: the validated contract reference, the stored dynamic data
//! source, the block range carried by each row, the raw and decoded row
//! shapes, and the error taxonomy.

use vstd::prelude::*;

use bigdecimal::BigDecimal;

verus! {

/// A validated contract reference: the contract address (mandatory once a
/// row has been validated, and then exactly 20 bytes), the interface (ABI)
/// identifier, and the block at which indexing of this contract starts
/// (0 when nothing was stored).
pub struct Source {
    pub address: Option<Vec<u8>>,
    pub abi: String,
    pub start_block: u64,
}

/// Mathematical model of a `Source`.
pub struct SourceView {
    pub address: Option<Seq<u8>>,
    pub abi: Seq<char>,
    pub start_block: u64,
}

impl View for Source {
    type V = SourceView;

    open spec fn view(&self) -> SourceView {
        SourceView {
            address: match self.address {
                Some(a) => Some(a@),
                None => None,
            },
            abi: self.abi@,
            start_block: self.start_block,
        }
    }
}

impl SourceView {
    /// What validation guarantees of every `Source` it returns.
    pub open spec fn wf(self) -> bool {
        self.address matches Some(a) && a.len() == 20
    }
}

/// One runtime-registered data source, as reconstructed for a deployment:
/// its name, its validated contract reference, an optional opaque context
/// blob (passed through uninterpreted), and the block at which it was
/// created (`None` when no lower bound was recorded).
pub struct StoredDynamicDataSource {
    pub name: String,
    pub source: Source,
    pub context: Option<String>,
    pub creation_block: Option<u64>,
}

/// Mathematical model of a `StoredDynamicDataSource`.
pub struct StoredDynamicDataSourceView {
    pub name: Seq<char>,
    pub source: SourceView,
    pub context: Option<Seq<char>>,
    pub creation_block: Option<u64>,
}

impl View for StoredDynamicDataSource {
    type V = StoredDynamicDataSourceView;

    open spec fn view(&self) -> StoredDynamicDataSourceView {
        StoredDynamicDataSourceView {
            name: self.name@,
            source: self.source@,
            context: match self.context {
                Some(c) => Some(c@),
                None => None,
            },
            creation_block: self.creation_block,
        }
    }
}

/// The half-open block interval stored with each row, reduced to its two
/// end points: `lower` is the inclusive lower bound (`None` when the
/// interval is unbounded below), `upper` the exclusive upper bound (`None`
/// when unbounded above). Only the lower bound matters to the loader.
pub struct BlockRange {
    pub lower: Option<i32>,
    pub upper: Option<i32>,
}

/// The stored start block after the numeric conversion has run: the
/// conversion result (`None` when the decimal is not representable as an
/// unsigned 64-bit integer) and the decimal's textual form, kept for
/// diagnostics.
pub struct StartBlock {
    pub value: Option<u64>,
    pub text: String,
}

/// Mathematical model of a `StartBlock`.
pub struct StartBlockView {
    pub value: Option<u64>,
    pub text: Seq<char>,
}

impl View for StartBlock {
    type V = StartBlockView;

    open spec fn view(&self) -> StartBlockView {
        StartBlockView { value: self.value, text: self.text@ }
    }
}

/// One raw joined row for a deployment, as handed in by the storage edge:
/// the data-source row's id, name and context joined with the referenced
/// source row's address, ABI identifier and stored start block, plus the
/// data-source row's block range.
pub struct RawRow {
    pub ds_id: String,
    pub name: String,
    pub context: Option<String>,
    pub address: Option<Vec<u8>>,
    pub abi: String,
    pub start_block: Option<BigDecimal>,
    pub block_range: BlockRange,
}

/// A raw row after the stored decimal has been put through the numeric
/// conversion; everything the validator reads is now a plain value.
pub struct DecodedRow {
    pub ds_id: String,
    pub name: String,
    pub context: Option<String>,
    pub address: Option<Vec<u8>>,
    pub abi: String,
    pub start_block: Option<StartBlock>,
    pub block_range: BlockRange,
}

/// Mathematical model of a `DecodedRow`.
pub struct DecodedRowView {
    pub ds_id: Seq<char>,
    pub name: Seq<char>,
    pub context: Option<Seq<char>>,
    pub address: Option<Seq<u8>>,
    pub abi: Seq<char>,
    pub start_block: Option<StartBlockView>,
    pub block_range: BlockRange,
}

impl View for DecodedRow {
    type V = DecodedRowView;

    open spec fn view(&self) -> DecodedRowView {
        DecodedRowView {
            ds_id: self.ds_id@,
            name: self.name@,
            context: match self.context {
                Some(c) => Some(c@),
                None => None,
            },
            address: match self.address {
                Some(a) => Some(a@),
                None => None,
            },
            abi: self.abi@,
            start_block: match self.start_block {
                Some(s) => Some(s@),
                None => None,
            },
            block_range: self.block_range,
        }
    }
}

/// The ways persisted data can violate an invariant the loader depends on.
/// Each variant carries what identifies the offending row for diagnosis.
#[derive(Debug)]
pub enum Violation {
    /// A data-source row whose referenced source has no address stored.
    MissingAddress { ds_id: String, deployment: String },
    /// A stored address whose byte length is not exactly 20; the raw bytes
    /// (and with them the observed length) are carried along.
    AddressLength { ds_id: String, deployment: String, address: Vec<u8> },
    /// A stored start block that is not representable as an unsigned 64-bit
    /// integer; `value` is its textual form.
    StartBlockNotU64 { ds_id: String, deployment: String, value: String },
    /// Two consecutive rows whose creation points are out of order.
    UnorderedCreationBlocks,
}

/// Mathematical model of a `Violation`.
pub enum ViolationView {
    MissingAddress { ds_id: Seq<char>, deployment: Seq<char> },
    AddressLength { ds_id: Seq<char>, deployment: Seq<char>, address: Seq<u8> },
    StartBlockNotU64 { ds_id: Seq<char>, deployment: Seq<char>, value: Seq<char> },
    UnorderedCreationBlocks,
}

impl View for Violation {
    type V = ViolationView;

    open spec fn view(&self) -> ViolationView {
        match self {
            Violation::MissingAddress { ds_id, deployment } => ViolationView::MissingAddress {
                ds_id: ds_id@,
                deployment: deployment@,
            },
            Violation::AddressLength { ds_id, deployment, address } => ViolationView::AddressLength {
                ds_id: ds_id@,
                deployment: deployment@,
                address: address@,
            },
            Violation::StartBlockNotU64 { ds_id, deployment, value } => (
                ViolationView::StartBlockNotU64 {
                    ds_id: ds_id@,
                    deployment: deployment@,
                    value: value@,
                }
            ),
            Violation::UnorderedCreationBlocks => ViolationView::UnorderedCreationBlocks,
        }
    }
}

/// The error taxonomy: corrupted persisted state is a `ConstraintViolation`;
/// a failure of the underlying query execution is passed through verbatim
/// and never reinterpreted.
#[derive(Debug)]
pub enum StoreError {
    ConstraintViolation(Violation),
    QueryExecution(String),
}

/// Mathematical model of a `StoreError`.
pub enum StoreErrorView {
    ConstraintViolation(ViolationView),
    QueryExecution(Seq<char>),
}

impl View for StoreError {
    type V = StoreErrorView;

    open spec fn view(&self) -> StoreErrorView {
        match self {
            StoreError::ConstraintViolation(v) => StoreErrorView::ConstraintViolation(v@),
            StoreError::QueryExecution(m) => StoreErrorView::QueryExecution(m@),
        }
    }
}

} // verus!
