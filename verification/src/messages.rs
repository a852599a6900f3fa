//! What the errors say.

use crate::arith::{ProductOverflow, Quantity};
use crate::kv_cache_copy::{CudaRangeError, KvCopyError};
use crate::qk_rmsnorm_rope::{Extent, Operand, PositionsFault, QkError};
use crate::ragged_prefill::{Count, LengthsError, LengthsFault, RaggedError, Side};
use crate::sampler::SamplerError;
use crate::tensor::{DType, Location, RankError};
use crate::text::{append_number, append_shape, append_signed, decimal, shape_text, signed_decimal};
use vstd::prelude::*;
use vstd::string::*;

verus! {

impl DType {
    /// The name of the element type.
    pub open spec fn text(self) -> Seq<char> {
        match self {
            DType::U8 => "U8"@,
            DType::U32 => "U32"@,
            DType::I64 => "I64"@,
            DType::BF16 => "BF16"@,
            DType::F16 => "F16"@,
            DType::F32 => "F32"@,
            DType::F64 => "F64"@,
        }
    }

    /// The text as a string.
    pub fn message(&self) -> (message: String)
        ensures
            message@ == self.text(),
    {
        match *self {
            DType::U8 => "U8".to_owned(),
            DType::U32 => "U32".to_owned(),
            DType::I64 => "I64".to_owned(),
            DType::BF16 => "BF16".to_owned(),
            DType::F16 => "F16".to_owned(),
            DType::F32 => "F32".to_owned(),
            DType::F64 => "F64".to_owned(),
        }
    }
}

impl RankError {
    /// What the error says.
    pub open spec fn text(self) -> Seq<char> {
        match self {
            RankError { expected, got } => {
                "unexpected rank, expected: "@
                    + decimal(expected as nat)
                    + ", got: "@
                    + decimal(got as nat)
            },
        }
    }

    /// The text as a string.
    pub fn message(&self) -> (message: String)
        ensures
            message@ == self.text(),
    {
        match *self {
            RankError { expected, got } => {
                let mut message = "unexpected rank, expected: ".to_owned();
                append_number(&mut message, expected as u64);
                message.append(", got: ");
                append_number(&mut message, got as u64);
                message
            },
        }
    }
}

impl Quantity {
    /// The name of the quantity.
    pub open spec fn text(self) -> Seq<char> {
        match self {
            Quantity::CacheLayoutByteOffset => "cache layout byte offset"@,
            Quantity::CacheViewByteCount => "cache view byte count"@,
            Quantity::QkvKvHeadCount => "QKV KV-head count"@,
            Quantity::QkvRowWidth => "QKV row width"@,
            Quantity::QkvElementCount => "QKV element count"@,
            Quantity::RopeTableElementCount => "RoPE table element count"@,
        }
    }

    /// The text as a string.
    pub fn message(&self) -> (message: String)
        ensures
            message@ == self.text(),
    {
        match *self {
            Quantity::CacheLayoutByteOffset => "cache layout byte offset".to_owned(),
            Quantity::CacheViewByteCount => "cache view byte count".to_owned(),
            Quantity::QkvKvHeadCount => "QKV KV-head count".to_owned(),
            Quantity::QkvRowWidth => "QKV row width".to_owned(),
            Quantity::QkvElementCount => "QKV element count".to_owned(),
            Quantity::RopeTableElementCount => "RoPE table element count".to_owned(),
        }
    }
}

impl ProductOverflow {
    /// What the error says.
    pub open spec fn text(self) -> Seq<char> {
        match self {
            ProductOverflow { quantity } => quantity.text() + " overflows usize"@,
        }
    }

    /// The text as a string.
    pub fn message(&self) -> (message: String)
        ensures
            message@ == self.text(),
    {
        match *self {
            ProductOverflow { quantity } => {
                let mut message = quantity.message();
                message.append(" overflows usize");
                message
            },
        }
    }
}

impl CudaRangeError {
    /// What the error says.
    pub open spec fn text(self) -> Seq<char> {
        match self {
            CudaRangeError::NotCudaStorage => "copy_kv_cache_block requires CUDA storage"@,
            CudaRangeError::StorageMismatch { dtype } => {
                "copy_kv_cache_block storage does not match supported dtype "@
                    + dtype.text()
            },
            CudaRangeError::ExtentsOverflow => "cache element count overflows usize"@,
            CudaRangeError::ViewEndOverflow => "cache view element range overflows usize"@,
            CudaRangeError::ViewExceedsStorage { start, end, len } => {
                "copy_kv_cache_block view range ["@
                    + decimal(start as nat)
                    + ", "@
                    + decimal(end as nat)
                    + ") exceeds storage length "@
                    + decimal(len as nat)
            },
            CudaRangeError::Product(error) => error.text(),
            CudaRangeError::PointerOverflow => "cache effective pointer overflows u64"@,
            CudaRangeError::RangeOverflow => "cache pointer range overflows u64"@,
        }
    }

    /// The text as a string.
    pub fn message(&self) -> (message: String)
        ensures
            message@ == self.text(),
    {
        match *self {
            CudaRangeError::NotCudaStorage => {
                "copy_kv_cache_block requires CUDA storage".to_owned()
            },
            CudaRangeError::StorageMismatch { dtype } => {
                let mut message = "copy_kv_cache_block storage does not match supported dtype ".to_owned();
                message.append(dtype.message().as_str());
                message
            },
            CudaRangeError::ExtentsOverflow => "cache element count overflows usize".to_owned(),
            CudaRangeError::ViewEndOverflow => {
                "cache view element range overflows usize".to_owned()
            },
            CudaRangeError::ViewExceedsStorage { start, end, len } => {
                let mut message = "copy_kv_cache_block view range [".to_owned();
                append_number(&mut message, start as u64);
                message.append(", ");
                append_number(&mut message, end as u64);
                message.append(") exceeds storage length ");
                append_number(&mut message, len as u64);
                message
            },
            CudaRangeError::Product(error) => error.message(),
            CudaRangeError::PointerOverflow => "cache effective pointer overflows u64".to_owned(),
            CudaRangeError::RangeOverflow => "cache pointer range overflows u64".to_owned(),
        }
    }
}

impl KvCopyError {
    /// What the error says.
    pub open spec fn text(self) -> Seq<char> {
        match self {
            KvCopyError::ExtentsOverflow => "cache element count overflows usize"@,
            KvCopyError::DifferentDevices => {
                "copy_kv_cache_block requires the exact same Candle device identity"@
            },
            KvCopyError::NotCuda => "copy_kv_cache_block requires CUDA tensors"@,
            KvCopyError::NotContiguous => {
                "copy_kv_cache_block requires contiguous K and V tensors"@
            },
            KvCopyError::DTypeMismatch { key_dtype, value_dtype } => {
                "copy_kv_cache_block requires matching dtypes, got "@
                    + key_dtype.text()
                    + " and "@
                    + value_dtype.text()
            },
            KvCopyError::UnsupportedDType { dtype } => {
                "copy_kv_cache_block does not support dtype "@
                    + dtype.text()
            },
            KvCopyError::KeyWithoutBlocks => "key cache must have a leading block dimension"@,
            KvCopyError::ValueWithoutBlocks => "value cache must have a leading block dimension"@,
            KvCopyError::BlockCounts { key_blocks, value_blocks } => {
                "copy_kv_cache_block requires matching positive block counts, got "@
                    + decimal(key_blocks as nat)
                    + " and "@
                    + decimal(value_blocks as nat)
            },
            KvCopyError::BlockSizes { key_elements, value_elements } => {
                "copy_kv_cache_block requires matching non-empty blocks, got "@
                    + decimal(key_elements as nat)
                    + " and "@
                    + decimal(value_elements as nat)
                    + " elements"@
            },
            KvCopyError::BlockIndex { source, destination, blocks } => {
                "copy_kv_cache_block indices source="@
                    + decimal(source as nat)
                    + ", destination="@
                    + decimal(destination as nat)
                    + " exceed block count "@
                    + decimal(blocks as nat)
            },
            KvCopyError::Range(error) => error.text(),
            KvCopyError::OverlappingCaches => {
                "copy_kv_cache_block rejects overlapping K and V cache ranges"@
            },
            KvCopyError::LaunchFailed { status } => {
                "copy_kv_cache_block CUDA launch failed with error "@
                    + signed_decimal(status as int)
            },
        }
    }

    /// The text as a string.
    pub fn message(&self) -> (message: String)
        ensures
            message@ == self.text(),
    {
        match *self {
            KvCopyError::ExtentsOverflow => "cache element count overflows usize".to_owned(),
            KvCopyError::DifferentDevices => {
                "copy_kv_cache_block requires the exact same Candle device identity".to_owned()
            },
            KvCopyError::NotCuda => "copy_kv_cache_block requires CUDA tensors".to_owned(),
            KvCopyError::NotContiguous => {
                "copy_kv_cache_block requires contiguous K and V tensors".to_owned()
            },
            KvCopyError::DTypeMismatch { key_dtype, value_dtype } => {
                let mut message = "copy_kv_cache_block requires matching dtypes, got ".to_owned();
                message.append(key_dtype.message().as_str());
                message.append(" and ");
                message.append(value_dtype.message().as_str());
                message
            },
            KvCopyError::UnsupportedDType { dtype } => {
                let mut message = "copy_kv_cache_block does not support dtype ".to_owned();
                message.append(dtype.message().as_str());
                message
            },
            KvCopyError::KeyWithoutBlocks => {
                "key cache must have a leading block dimension".to_owned()
            },
            KvCopyError::ValueWithoutBlocks => {
                "value cache must have a leading block dimension".to_owned()
            },
            KvCopyError::BlockCounts { key_blocks, value_blocks } => {
                let mut message = "copy_kv_cache_block requires matching positive block counts, got ".to_owned();
                append_number(&mut message, key_blocks as u64);
                message.append(" and ");
                append_number(&mut message, value_blocks as u64);
                message
            },
            KvCopyError::BlockSizes { key_elements, value_elements } => {
                let mut message = "copy_kv_cache_block requires matching non-empty blocks, got ".to_owned();
                append_number(&mut message, key_elements as u64);
                message.append(" and ");
                append_number(&mut message, value_elements as u64);
                message.append(" elements");
                message
            },
            KvCopyError::BlockIndex { source, destination, blocks } => {
                let mut message = "copy_kv_cache_block indices source=".to_owned();
                append_number(&mut message, source as u64);
                message.append(", destination=");
                append_number(&mut message, destination as u64);
                message.append(" exceed block count ");
                append_number(&mut message, blocks as u64);
                message
            },
            KvCopyError::Range(error) => error.message(),
            KvCopyError::OverlappingCaches => {
                "copy_kv_cache_block rejects overlapping K and V cache ranges".to_owned()
            },
            KvCopyError::LaunchFailed { status } => {
                let mut message = "copy_kv_cache_block CUDA launch failed with error ".to_owned();
                append_signed(&mut message, status as i64);
                message
            },
        }
    }
}

impl PositionsFault {
    /// What the error says.
    pub open spec fn text(self) -> Seq<char> {
        match self {
            PositionsFault::Empty => "validated positions must not be empty"@,
            PositionsFault::ZeroBound => "validated positions require a positive table bound"@,
            PositionsFault::BoundExceedsI64 { bound: _ } => {
                "out of range integral type conversion attempted"@
            },
            PositionsFault::OutOfRange { index, bound, position } => {
                "position at index "@
                    + decimal(index as nat)
                    + " must be in [0, "@
                    + decimal(bound as nat)
                    + "), got "@
                    + signed_decimal(position as int)
            },
        }
    }

    /// The text as a string.
    pub fn message(&self) -> (message: String)
        ensures
            message@ == self.text(),
    {
        match *self {
            PositionsFault::Empty => "validated positions must not be empty".to_owned(),
            PositionsFault::ZeroBound => {
                "validated positions require a positive table bound".to_owned()
            },
            PositionsFault::BoundExceedsI64 { bound: _ } => {
                "out of range integral type conversion attempted".to_owned()
            },
            PositionsFault::OutOfRange { index, bound, position } => {
                let mut message = "position at index ".to_owned();
                append_number(&mut message, index as u64);
                message.append(" must be in [0, ");
                append_number(&mut message, bound as u64);
                message.append("), got ");
                append_signed(&mut message, position as i64);
                message
            },
        }
    }
}

impl Operand {
    /// The name of the operand.
    pub open spec fn text(self) -> Seq<char> {
        match self {
            Operand::Qkv => "QKV"@,
            Operand::QWeight => "q_weight"@,
            Operand::KWeight => "k_weight"@,
            Operand::Cos => "cos"@,
            Operand::Sin => "sin"@,
            Operand::Positions => "positions"@,
        }
    }

    /// The text as a string.
    pub fn message(&self) -> (message: String)
        ensures
            message@ == self.text(),
    {
        match *self {
            Operand::Qkv => "QKV".to_owned(),
            Operand::QWeight => "q_weight".to_owned(),
            Operand::KWeight => "k_weight".to_owned(),
            Operand::Cos => "cos".to_owned(),
            Operand::Sin => "sin".to_owned(),
            Operand::Positions => "positions".to_owned(),
        }
    }
}

impl Extent {
    /// The name of the extent.
    pub open spec fn text(self) -> Seq<char> {
        match self {
            Extent::Tokens => "tokens"@,
            Extent::QHeads => "q_heads"@,
            Extent::KvHeads => "kv_heads"@,
            Extent::RowWidth => "QKV row width"@,
            Extent::TableRows => "RoPE table rows"@,
        }
    }

    /// The text as a string.
    pub fn message(&self) -> (message: String)
        ensures
            message@ == self.text(),
    {
        match *self {
            Extent::Tokens => "tokens".to_owned(),
            Extent::QHeads => "q_heads".to_owned(),
            Extent::KvHeads => "kv_heads".to_owned(),
            Extent::RowWidth => "QKV row width".to_owned(),
            Extent::TableRows => "RoPE table rows".to_owned(),
        }
    }
}

impl QkError {
    /// What the error says, without the shapes of the operands and the value of epsilon.
    pub open spec fn text(self) -> Seq<char> {
        match self {
            QkError::Epsilon { eps_bits: _ } => {
                "qk_rmsnorm_rope epsilon must be finite and positive"@
            },
            QkError::HeadCounts => "qk_rmsnorm_rope requires positive Q and KV head counts"@,
            QkError::Rank { operand: _, error } => error.text(),
            QkError::NoTokens => "qk_rmsnorm_rope requires at least one token"@,
            QkError::Product(error) => error.text(),
            QkError::HeadCountOverflow => "QKV head count overflows usize"@,
            QkError::QkvShape { tokens, expected_width, width } => {
                "qk_rmsnorm_rope expected QKV shape ["@
                    + decimal(tokens as nat)
                    + ", "@
                    + decimal(expected_width as nat)
                    + "], got ["@
                    + decimal(tokens as nat)
                    + ", "@
                    + decimal(width as nat)
                    + "]"@
            },
            QkError::QkvDType { dtype } => {
                "qk_rmsnorm_rope QKV must be BF16, got "@
                    + dtype.text()
            },
            QkError::WeightContract { operand, weight_dtype } => {
                "qk_rmsnorm_rope "@
                    + operand.text()
                    + " must be F32 [128], got "@
                    + weight_dtype.text()
            },
            QkError::TableShapes => {
                "qk_rmsnorm_rope cos/sin must have matching F32 [max_position, 64] shapes"@
            },
            QkError::TableDTypes { cos, sin } => {
                "qk_rmsnorm_rope cos/sin must be F32, got "@
                    + cos.text()
                    + " and "@
                    + sin.text()
            },
            QkError::Certificate { len, bound, certified_tokens, table_rows } => {
                "qk_rmsnorm_rope position certificate len/bound ("@
                    + decimal(len as nat)
                    + ", "@
                    + decimal(bound as nat)
                    + ") is incompatible with tokens/table rows ("@
                    + decimal(certified_tokens as nat)
                    + ", "@
                    + decimal(table_rows as nat)
                    + ")"@
            },
            QkError::NotContiguous { operand } => {
                "qk_rmsnorm_rope "@
                    + operand.text()
                    + " must be contiguous"@
            },
            QkError::DifferentDevice { operand: Operand::Positions } => {
                "qk_rmsnorm_rope positions are on a different Candle device identity"@
            },
            QkError::DifferentDevice { operand } => {
                "qk_rmsnorm_rope "@
                    + operand.text()
                    + " is on a different Candle device identity"@
            },
            QkError::ExceedsU32 { extent } => {
                "qk_rmsnorm_rope "@
                    + extent.text()
                    + " exceeds u32"@
            },
            QkError::CudaFeatureRequired => {
                "qk_rmsnorm_rope requires the attention-rs cuda feature"@
            },
            QkError::NotCuda => "qk_rmsnorm_rope requires a CUDA device"@,
            QkError::NotCudaStorage { operand } => {
                "qk_rmsnorm_rope "@
                    + operand.text()
                    + " must use CUDA storage"@
            },
            QkError::StorageDType { operand: Operand::Qkv } => {
                "qk_rmsnorm_rope QKV storage is not BF16"@
            },
            QkError::StorageDType { operand: Operand::Positions } => {
                "qk_rmsnorm_rope position storage is not I64"@
            },
            QkError::StorageDType { operand } => {
                "qk_rmsnorm_rope "@
                    + operand.text()
                    + " storage is not F32"@
            },
            QkError::LaunchFailed { status } => {
                "qk_rmsnorm_rope CUDA launch failed with error "@
                    + signed_decimal(status as int)
            },
        }
    }

    /// The text as a string.
    pub fn message(&self) -> (message: String)
        ensures
            message@ == self.text(),
    {
        match *self {
            QkError::Epsilon { eps_bits: _ } => {
                "qk_rmsnorm_rope epsilon must be finite and positive".to_owned()
            },
            QkError::HeadCounts => {
                "qk_rmsnorm_rope requires positive Q and KV head counts".to_owned()
            },
            QkError::Rank { operand: _, error } => error.message(),
            QkError::NoTokens => "qk_rmsnorm_rope requires at least one token".to_owned(),
            QkError::Product(error) => error.message(),
            QkError::HeadCountOverflow => "QKV head count overflows usize".to_owned(),
            QkError::QkvShape { tokens, expected_width, width } => {
                let mut message = "qk_rmsnorm_rope expected QKV shape [".to_owned();
                append_number(&mut message, tokens as u64);
                message.append(", ");
                append_number(&mut message, expected_width as u64);
                message.append("], got [");
                append_number(&mut message, tokens as u64);
                message.append(", ");
                append_number(&mut message, width as u64);
                message.append("]");
                message
            },
            QkError::QkvDType { dtype } => {
                let mut message = "qk_rmsnorm_rope QKV must be BF16, got ".to_owned();
                message.append(dtype.message().as_str());
                message
            },
            QkError::WeightContract { operand, weight_dtype } => {
                let mut message = "qk_rmsnorm_rope ".to_owned();
                message.append(operand.message().as_str());
                message.append(" must be F32 [128], got ");
                message.append(weight_dtype.message().as_str());
                message
            },
            QkError::TableShapes => {
                "qk_rmsnorm_rope cos/sin must have matching F32 [max_position, 64] shapes".to_owned()
            },
            QkError::TableDTypes { cos, sin } => {
                let mut message = "qk_rmsnorm_rope cos/sin must be F32, got ".to_owned();
                message.append(cos.message().as_str());
                message.append(" and ");
                message.append(sin.message().as_str());
                message
            },
            QkError::Certificate { len, bound, certified_tokens, table_rows } => {
                let mut message = "qk_rmsnorm_rope position certificate len/bound (".to_owned();
                append_number(&mut message, len as u64);
                message.append(", ");
                append_number(&mut message, bound as u64);
                message.append(") is incompatible with tokens/table rows (");
                append_number(&mut message, certified_tokens as u64);
                message.append(", ");
                append_number(&mut message, table_rows as u64);
                message.append(")");
                message
            },
            QkError::NotContiguous { operand } => {
                let mut message = "qk_rmsnorm_rope ".to_owned();
                message.append(operand.message().as_str());
                message.append(" must be contiguous");
                message
            },
            QkError::DifferentDevice { operand: Operand::Positions } => {
                "qk_rmsnorm_rope positions are on a different Candle device identity".to_owned()
            },
            QkError::DifferentDevice { operand } => {
                let mut message = "qk_rmsnorm_rope ".to_owned();
                message.append(operand.message().as_str());
                message.append(" is on a different Candle device identity");
                message
            },
            QkError::ExceedsU32 { extent } => {
                let mut message = "qk_rmsnorm_rope ".to_owned();
                message.append(extent.message().as_str());
                message.append(" exceeds u32");
                message
            },
            QkError::CudaFeatureRequired => {
                "qk_rmsnorm_rope requires the attention-rs cuda feature".to_owned()
            },
            QkError::NotCuda => "qk_rmsnorm_rope requires a CUDA device".to_owned(),
            QkError::NotCudaStorage { operand } => {
                let mut message = "qk_rmsnorm_rope ".to_owned();
                message.append(operand.message().as_str());
                message.append(" must use CUDA storage");
                message
            },
            QkError::StorageDType { operand: Operand::Qkv } => {
                "qk_rmsnorm_rope QKV storage is not BF16".to_owned()
            },
            QkError::StorageDType { operand: Operand::Positions } => {
                "qk_rmsnorm_rope position storage is not I64".to_owned()
            },
            QkError::StorageDType { operand } => {
                let mut message = "qk_rmsnorm_rope ".to_owned();
                message.append(operand.message().as_str());
                message.append(" storage is not F32");
                message
            },
            QkError::LaunchFailed { status } => {
                let mut message = "qk_rmsnorm_rope CUDA launch failed with error ".to_owned();
                append_signed(&mut message, status as i64);
                message
            },
        }
    }
}

impl Side {
    /// The name of the side.
    pub open spec fn text(self) -> Seq<char> {
        match self {
            Side::Query => "query"@,
            Side::Kv => "KV"@,
        }
    }

    /// The text as a string.
    pub fn message(&self) -> (message: String)
        ensures
            message@ == self.text(),
    {
        match *self {
            Side::Query => "query".to_owned(),
            Side::Kv => "KV".to_owned(),
        }
    }
}

impl Count {
    /// The name of the count.
    pub open spec fn text(self) -> Seq<char> {
        match self {
            Count::QueryRows => "query row count"@,
            Count::KvRows => "KV row count"@,
            Count::QoHeads => "QO head count"@,
            Count::KvHeads => "KV head count"@,
        }
    }

    /// The text as a string.
    pub fn message(&self) -> (message: String)
        ensures
            message@ == self.text(),
    {
        match *self {
            Count::QueryRows => "query row count".to_owned(),
            Count::KvRows => "KV row count".to_owned(),
            Count::QoHeads => "QO head count".to_owned(),
            Count::KvHeads => "KV head count".to_owned(),
        }
    }
}

impl RaggedError {
    /// What the error says, without the shapes of the tensors.
    pub open spec fn text(self) -> Seq<char> {
        match self {
            RaggedError::ExtentsOverflow => "ragged prefill Q/K/V element count overflows usize"@,
            RaggedError::NotBf16 => "checked ragged prefill supports only BF16 K/V"@,
            RaggedError::ScalesNotAccepted => "checked ragged prefill does not accept FP8 scales"@,
            RaggedError::DTypes => "ragged prefill Q/K/V dtype must match kv_data_type"@,
            RaggedError::NotContiguous => "ragged prefill Q/K/V must be contiguous"@,
            RaggedError::Rank { side: _, error } => error.text(),
            RaggedError::Rows => "ragged prefill Q/K/V rows do not match declared totals"@,
            RaggedError::Shapes => {
                "ragged prefill Q/K/V shapes do not match declared heads and head_dim"@
            },
            RaggedError::HeadConfiguration => "ragged prefill head configuration is invalid"@,
            RaggedError::GroupSize => "ragged prefill GQA group size is unsupported"@,
            RaggedError::BatchSizes => {
                "query and KV cumulative lengths must describe the same batch size"@
            },
            RaggedError::SmScale => "ragged prefill sm_scale must be finite and positive"@,
            RaggedError::NotSameCudaDevice => {
                "ragged prefill Q/K/V must be on the same CUDA device"@
            },
            RaggedError::DeviceLengths { side } => {
                side.text()
                    + " device cumulative lengths have an invalid shape, dtype, layout, or device"@
            },
            RaggedError::ExceedsI32 { count } => count.text() + " exceeds i32"@,
            RaggedError::CpuUnsupported => "checked ragged prefill does not support CPU"@,
            RaggedError::ComputeCapability { sm } => {
                "checked ragged prefill requires SM90+, got SM"@
                    + decimal(sm as nat)
            },
            RaggedError::UnsupportedStorage => {
                "checked ragged prefill requires F16 or BF16 storage"@
            },
            RaggedError::SliceDType { expected, got } => {
                "unexpected dtype, expected: "@
                    + expected.text()
                    + ", got: "@
                    + got.text()
            },
            RaggedError::TensorNotCuda => "checked ragged prefill tensor must be CUDA"@,
            RaggedError::LengthsNotCuda => "cumulative lengths must be CUDA"@,
            RaggedError::NativeFailed { status } => {
                "native ragged prefill failed with status "@
                    + signed_decimal(status as int)
            },
        }
    }

    /// The text as a string.
    pub fn message(&self) -> (message: String)
        ensures
            message@ == self.text(),
    {
        match *self {
            RaggedError::ExtentsOverflow => {
                "ragged prefill Q/K/V element count overflows usize".to_owned()
            },
            RaggedError::NotBf16 => "checked ragged prefill supports only BF16 K/V".to_owned(),
            RaggedError::ScalesNotAccepted => {
                "checked ragged prefill does not accept FP8 scales".to_owned()
            },
            RaggedError::DTypes => "ragged prefill Q/K/V dtype must match kv_data_type".to_owned(),
            RaggedError::NotContiguous => "ragged prefill Q/K/V must be contiguous".to_owned(),
            RaggedError::Rank { side: _, error } => error.message(),
            RaggedError::Rows => {
                "ragged prefill Q/K/V rows do not match declared totals".to_owned()
            },
            RaggedError::Shapes => {
                "ragged prefill Q/K/V shapes do not match declared heads and head_dim".to_owned()
            },
            RaggedError::HeadConfiguration => {
                "ragged prefill head configuration is invalid".to_owned()
            },
            RaggedError::GroupSize => "ragged prefill GQA group size is unsupported".to_owned(),
            RaggedError::BatchSizes => {
                "query and KV cumulative lengths must describe the same batch size".to_owned()
            },
            RaggedError::SmScale => {
                "ragged prefill sm_scale must be finite and positive".to_owned()
            },
            RaggedError::NotSameCudaDevice => {
                "ragged prefill Q/K/V must be on the same CUDA device".to_owned()
            },
            RaggedError::DeviceLengths { side } => {
                let mut message = side.message();
                message.append(" device cumulative lengths have an invalid shape, dtype, layout, or device");
                message
            },
            RaggedError::ExceedsI32 { count } => {
                let mut message = count.message();
                message.append(" exceeds i32");
                message
            },
            RaggedError::CpuUnsupported => {
                "checked ragged prefill does not support CPU".to_owned()
            },
            RaggedError::ComputeCapability { sm } => {
                let mut message = "checked ragged prefill requires SM90+, got SM".to_owned();
                append_number(&mut message, sm as u64);
                message
            },
            RaggedError::UnsupportedStorage => {
                "checked ragged prefill requires F16 or BF16 storage".to_owned()
            },
            RaggedError::SliceDType { expected, got } => {
                let mut message = "unexpected dtype, expected: ".to_owned();
                message.append(expected.message().as_str());
                message.append(", got: ");
                message.append(got.message().as_str());
                message
            },
            RaggedError::TensorNotCuda => "checked ragged prefill tensor must be CUDA".to_owned(),
            RaggedError::LengthsNotCuda => "cumulative lengths must be CUDA".to_owned(),
            RaggedError::NativeFailed { status } => {
                let mut message = "native ragged prefill failed with status ".to_owned();
                append_signed(&mut message, status as i64);
                message
            },
        }
    }
}

impl SamplerError {
    /// What the error says, without the shape of the logits.
    pub open spec fn text(self) -> Seq<char> {
        match self {
            SamplerError::ExtentsOverflow => "logits element count overflows usize"@,
            SamplerError::Rank(error) => error.text(),
            SamplerError::EmptyBatch => "greedy_cuda requires a nonempty batch"@,
            SamplerError::VocabWidth { vocab } => {
                "greedy_cuda requires vocab width 151936, got "@
                    + decimal(vocab as nat)
            },
            SamplerError::LogitsDType { dtype } => {
                "greedy_cuda requires F32 logits, got "@
                    + dtype.text()
            },
            SamplerError::NotContiguous => "greedy_cuda requires contiguous logits"@,
            SamplerError::ScratchOverflow => "greedy_cuda scratch byte count overflows usize"@,
            SamplerError::BatchExceedsI32 => "greedy_cuda batch exceeds i32"@,
            SamplerError::BatchExceedsGrid => "greedy_cuda batch exceeds CUDA grid.y limit"@,
            SamplerError::NotCuda => "greedy_cuda requires CUDA logits"@,
            SamplerError::NotCudaStorage => "greedy_cuda requires CUDA storage"@,
            SamplerError::StorageMismatch => "greedy_cuda F32 storage mismatch"@,
            SamplerError::ViewOverflow => "greedy_cuda view range overflows"@,
            SamplerError::ViewExceedsStorage => "greedy_cuda view exceeds its CUDA storage"@,
            SamplerError::GreedyFailed { status } => {
                "greedy_cuda CUDA operation failed with status "@
                    + signed_decimal(status as int)
            },
            SamplerError::RowCounts => "sampler requires one seed and position per batch row"@,
            SamplerError::SamplerNotCuda { location: Location::Metal { gpu_id: _ } } => {
                "expected a cuda device, got Metal"@
            },
            SamplerError::SamplerNotCuda { location: _ } => "expected a cuda device, got cpu"@,
            SamplerError::SamplerNotCudaStorage => "Sampler expects CUDA tensor"@,
            SamplerError::SliceDType { expected } => {
                "Dtype mismatch: expected "@
                    + expected.text()
                    + " storage"@
            },
            SamplerError::UnsupportedDType { sampled } => {
                "Sampler only supports F32, F16, and BF16 dtypes, got "@
                    + sampled.text()
            },
            SamplerError::RequiresCudaOrMetal => "Sampler requires CUDA or Metal device"@,
        }
    }

    /// The text as a string.
    pub fn message(&self) -> (message: String)
        ensures
            message@ == self.text(),
    {
        match *self {
            SamplerError::ExtentsOverflow => "logits element count overflows usize".to_owned(),
            SamplerError::Rank(error) => error.message(),
            SamplerError::EmptyBatch => "greedy_cuda requires a nonempty batch".to_owned(),
            SamplerError::VocabWidth { vocab } => {
                let mut message = "greedy_cuda requires vocab width 151936, got ".to_owned();
                append_number(&mut message, vocab as u64);
                message
            },
            SamplerError::LogitsDType { dtype } => {
                let mut message = "greedy_cuda requires F32 logits, got ".to_owned();
                message.append(dtype.message().as_str());
                message
            },
            SamplerError::NotContiguous => "greedy_cuda requires contiguous logits".to_owned(),
            SamplerError::ScratchOverflow => {
                "greedy_cuda scratch byte count overflows usize".to_owned()
            },
            SamplerError::BatchExceedsI32 => "greedy_cuda batch exceeds i32".to_owned(),
            SamplerError::BatchExceedsGrid => {
                "greedy_cuda batch exceeds CUDA grid.y limit".to_owned()
            },
            SamplerError::NotCuda => "greedy_cuda requires CUDA logits".to_owned(),
            SamplerError::NotCudaStorage => "greedy_cuda requires CUDA storage".to_owned(),
            SamplerError::StorageMismatch => "greedy_cuda F32 storage mismatch".to_owned(),
            SamplerError::ViewOverflow => "greedy_cuda view range overflows".to_owned(),
            SamplerError::ViewExceedsStorage => {
                "greedy_cuda view exceeds its CUDA storage".to_owned()
            },
            SamplerError::GreedyFailed { status } => {
                let mut message = "greedy_cuda CUDA operation failed with status ".to_owned();
                append_signed(&mut message, status as i64);
                message
            },
            SamplerError::RowCounts => {
                "sampler requires one seed and position per batch row".to_owned()
            },
            SamplerError::SamplerNotCuda { location: Location::Metal { gpu_id: _ } } => {
                "expected a cuda device, got Metal".to_owned()
            },
            SamplerError::SamplerNotCuda { location: _ } => {
                "expected a cuda device, got cpu".to_owned()
            },
            SamplerError::SamplerNotCudaStorage => "Sampler expects CUDA tensor".to_owned(),
            SamplerError::SliceDType { expected } => {
                let mut message = "Dtype mismatch: expected ".to_owned();
                message.append(expected.message().as_str());
                message.append(" storage");
                message
            },
            SamplerError::UnsupportedDType { sampled } => {
                let mut message = "Sampler only supports F32, F16, and BF16 dtypes, got ".to_owned();
                message.append(sampled.message().as_str());
                message
            },
            SamplerError::RequiresCudaOrMetal => {
                "Sampler requires CUDA or Metal device".to_owned()
            },
        }
    }
}

impl LengthsError {
    /// What the error says.
    pub open spec fn text(self) -> Seq<char> {
        match self.fault {
            LengthsFault::Ends { total_rows } => {
                self.label@ + " cumulative lengths must start at zero and end at "@ + decimal(
                    total_rows as nat,
                )
            },
            LengthsFault::NotIncreasing => {
                self.label@ + " cumulative lengths must be strictly increasing"@
            },
        }
    }

    /// The text as a string.
    pub fn message(&self) -> (message: String)
        ensures
            message@ == self.text(),
    {
        let mut message = self.label.as_str().to_owned();
        match self.fault {
            LengthsFault::Ends { total_rows } => {
                message.append(" cumulative lengths must start at zero and end at ");
                append_number(&mut message, total_rows as u64);
            },
            LengthsFault::NotIncreasing => {
                message.append(" cumulative lengths must be strictly increasing");
            },
        }
        message
    }
}

impl RankError {
    /// What the error says of a tensor with these extents.
    pub open spec fn text_with_shape(self, dims: Seq<usize>) -> Seq<char> {
        self.text() + " ("@ + shape_text(dims) + ")"@
    }

    /// The text with the extents as a string.
    pub fn message_with_shape(&self, dims: &[usize]) -> (message: String)
        ensures
            message@ == self.text_with_shape(dims@),
    {
        let mut message = self.message();
        message.append(" (");
        append_shape(&mut message, dims);
        message.append(")");
        message
    }
}

/// The extents of the operands of the fused operation.
#[derive(Clone, Copy)]
pub struct OperandShapes<'a> {
    pub qkv: &'a [usize],
    pub q_weight: &'a [usize],
    pub k_weight: &'a [usize],
    pub cos: &'a [usize],
    pub sin: &'a [usize],
    pub positions: &'a [usize],
}

impl<'a> OperandShapes<'a> {
    /// The extents of one operand.
    pub open spec fn extents(self, operand: Operand) -> Seq<usize> {
        match operand {
            Operand::Qkv => self.qkv@,
            Operand::QWeight => self.q_weight@,
            Operand::KWeight => self.k_weight@,
            Operand::Cos => self.cos@,
            Operand::Sin => self.sin@,
            Operand::Positions => self.positions@,
        }
    }

    /// The extents of one operand.
    pub fn dims(&self, operand: Operand) -> (dims: &'a [usize])
        ensures
            dims@ == self.extents(operand),
    {
        match operand {
            Operand::Qkv => self.qkv,
            Operand::QWeight => self.q_weight,
            Operand::KWeight => self.k_weight,
            Operand::Cos => self.cos,
            Operand::Sin => self.sin,
            Operand::Positions => self.positions,
        }
    }
}

impl QkError {
    /// What the error says of operands with these extents, without the value of epsilon.
    pub open spec fn text_with_shapes(self, shapes: OperandShapes) -> Seq<char> {
        match self {
            QkError::Rank { operand, error } => error.text_with_shape(shapes.extents(operand)),
            QkError::WeightContract { operand, weight_dtype: _ } => {
                self.text() + " "@ + shape_text(shapes.extents(operand))
            },
            QkError::TableShapes => {
                self.text() + ", got "@ + shape_text(shapes.cos@) + " and "@ + shape_text(
                    shapes.sin@,
                )
            },
            _ => self.text(),
        }
    }

    /// The text with the extents as a string.
    pub fn message_with_shapes(&self, shapes: OperandShapes) -> (message: String)
        ensures
            message@ == self.text_with_shapes(shapes),
    {
        match *self {
            QkError::Rank { operand, error } => error.message_with_shape(shapes.dims(operand)),
            QkError::WeightContract { operand, weight_dtype: _ } => {
                let mut message = self.message();
                message.append(" ");
                append_shape(&mut message, shapes.dims(operand));
                message
            },
            QkError::TableShapes => {
                let mut message = self.message();
                message.append(", got ");
                append_shape(&mut message, shapes.cos);
                message.append(" and ");
                append_shape(&mut message, shapes.sin);
                message
            },
            _ => self.message(),
        }
    }
}

impl RaggedError {
    /// What the error says of queries and keys with these extents.
    pub open spec fn text_with_shapes(self, q: Seq<usize>, k: Seq<usize>) -> Seq<char> {
        match self {
            RaggedError::Rank { side: Side::Query, error } => error.text_with_shape(q),
            RaggedError::Rank { side: Side::Kv, error } => error.text_with_shape(k),
            _ => self.text(),
        }
    }

    /// The text with the extents as a string.
    pub fn message_with_shapes(&self, q: &[usize], k: &[usize]) -> (message: String)
        ensures
            message@ == self.text_with_shapes(q@, k@),
    {
        match *self {
            RaggedError::Rank { side: Side::Query, error } => error.message_with_shape(q),
            RaggedError::Rank { side: Side::Kv, error } => error.message_with_shape(k),
            _ => self.message(),
        }
    }
}

impl SamplerError {
    /// What the error says of logits with these extents.
    pub open spec fn text_with_shape(self, logits: Seq<usize>) -> Seq<char> {
        match self {
            SamplerError::Rank(error) => error.text_with_shape(logits),
            _ => self.text(),
        }
    }

    /// The text with the extents as a string.
    pub fn message_with_shape(&self, logits: &[usize]) -> (message: String)
        ensures
            message@ == self.text_with_shape(logits@),
    {
        match *self {
            SamplerError::Rank(error) => error.message_with_shape(logits),
            _ => self.message(),
        }
    }
}

} // verus!
