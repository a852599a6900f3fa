//! Narrow checked planning of ragged prefill.

use crate::float_bits::is_finite_and_positive;
use crate::tensor::{
    device_location, lemma_one_axis_fits, tensor_view, upload_u32, CudaSlice, DType, Location,
    RankError, Storage, StoredTensor, StoredView, TensorDesc, TensorView,
};
use std::sync::Arc;
use vstd::prelude::*;

verus! {

/// Attention mask passed explicitly to the native ragged kernel.
#[derive(Clone, Copy, Debug, PartialEq, Eq, Structural)]
pub enum RaggedMask {
    NonCausal,
    Causal,
}

impl RaggedMask {
    /// The number that the native kernel knows the mask by.
    pub open spec fn native(self) -> i32 {
        match self {
            RaggedMask::NonCausal => 0,
            RaggedMask::Causal => 1,
        }
    }

    /// The number that the native kernel knows the mask by.
    pub fn code(self) -> (code: i32)
        ensures
            code == self.native(),
    {
        match self {
            RaggedMask::NonCausal => 0,
            RaggedMask::Causal => 1,
        }
    }
}

/// What is wrong with cumulative lengths.
#[derive(Clone, Copy, Debug, PartialEq, Eq, Structural)]
pub enum LengthsFault {
    /// They are fewer than two, do not start at zero, or do not end at the total.
    Ends { total_rows: u32 },
    NotIncreasing,
}

/// Cumulative lengths that were refused, and what they were called.
#[derive(Debug)]
pub struct LengthsError {
    pub label: String,
    pub fault: LengthsFault,
}

/// Why no checked lengths came about.
#[derive(Debug)]
pub enum CheckedLengthsError {
    Lengths(LengthsError),
    /// The device did not take them.
    Upload(candle_core::Error),
}

/// At least one sequence, from row zero up to the total.
pub open spec fn ends_match(lengths: Seq<u32>, total_rows: u32) -> bool {
    lengths.len() >= 2 && lengths[0] == 0 && lengths.last() == total_rows
}

pub open spec fn strictly_increasing(lengths: Seq<u32>) -> bool {
    forall|i: int, j: int| 0 <= i < j < lengths.len() ==> lengths[i] < lengths[j]
}

/// Cumulative lengths of non-empty sequences that cover the rows up to the total.
pub open spec fn lengths_valid(lengths: Seq<u32>, total_rows: u32) -> bool {
    ends_match(lengths, total_rows) && strictly_increasing(lengths)
}

/// The last of the cumulative lengths, zero where there is none.
pub open spec fn final_row(lengths: Seq<u32>) -> u32 {
    if lengths.len() == 0 {
        0
    } else {
        lengths.last()
    }
}

/// The first rule that the lengths break.
pub open spec fn lengths_fault(lengths: Seq<u32>, total_rows: u32) -> Option<LengthsFault> {
    if !ends_match(lengths, total_rows) {
        Some(LengthsFault::Ends { total_rows })
    } else if !strictly_increasing(lengths) {
        Some(LengthsFault::NotIncreasing)
    } else {
        None
    }
}

/// Checks that cumulative lengths start at zero, end at the total and increase strictly.
pub fn validate_lengths(lengths: &[u32], total_rows: u32, label: &str) -> (result: Result<
    (),
    LengthsError,
>)
    ensures
        match result {
            Ok(()) => lengths_fault(lengths@, total_rows) is None,
            Err(error) => error.label@ == label@ && lengths_fault(lengths@, total_rows) == Some(
                error.fault,
            ),
        },
{
    if lengths.len() < 2 || lengths[0] != 0 || lengths[lengths.len() - 1] != total_rows {
        return Err(
            LengthsError { label: label.to_owned(), fault: LengthsFault::Ends { total_rows } },
        );
    }
    let mut next: usize = 1;
    while next < lengths.len()
        invariant
            1 <= next <= lengths@.len(),
            ends_match(lengths@, total_rows),
            forall|i: int, j: int| 0 <= i < j < next ==> lengths@[i] < lengths@[j],
        decreases lengths@.len() - next,
    {
        if lengths[next - 1] >= lengths[next] {
            return Err(
                LengthsError { label: label.to_owned(), fault: LengthsFault::NotIncreasing },
            );
        }
        next = next + 1;
    }
    Ok(())
}

/// Validated cumulative lengths with one authoritative host and device representation.
#[derive(Debug)]
pub struct CheckedRaggedLengths {
    host: Arc<Vec<u32>>,
    device: candle_core::Tensor,
    total_rows: u32,
}

/// The mathematical content of [`CheckedRaggedLengths`].
#[verifier::ext_equal]
pub struct LengthsView {
    /// The lengths on the host.
    pub host: Seq<u32>,
    /// The lengths that the device tensor was filled with.
    pub uploaded: Seq<int>,
    /// The device tensor.
    pub device: TensorView,
}

impl View for CheckedRaggedLengths {
    type V = LengthsView;

    closed spec fn view(&self) -> LengthsView {
        LengthsView {
            host: self.host@,
            uploaded: crate::tensor::tensor_values(self.device),
            device: tensor_view(self.device),
        }
    }
}

impl LengthsView {
    /// The lengths are valid, and the device tensor holds the same ones as contiguous
    /// `U32`.
    pub open spec fn wf(self) -> bool {
        &&& self.host.len() <= usize::MAX
        &&& lengths_valid(self.host, final_row(self.host))
        &&& self.uploaded == self.host.map_values(|length: u32| length as int)
        &&& self.device.dtype == DType::U32
        &&& self.device.dims == seq![self.host.len() as usize]
        &&& self.device.contiguous()
    }
}

impl Clone for CheckedRaggedLengths {
    fn clone(&self) -> (copy: CheckedRaggedLengths)
        ensures
            copy@ == self@,
    {
        proof {
            use_type_invariant(self);
        }
        CheckedRaggedLengths {
            host: self.host.clone(),
            device: self.device.clone(),
            total_rows: self.total_rows,
        }
    }
}

impl CheckedRaggedLengths {
    #[verifier::type_invariant]
    pub closed spec fn wf(&self) -> bool {
        self@.wf() && self.total_rows == final_row(self@.host)
    }

    /// Validates host cumulative lengths and creates their device representation once.
    ///
    /// Valid lengths are refused only where the device does not take them. The host takes
    /// them all.
    pub fn new(host: &[u32], device: &candle_core::Device) -> (result: Result<
        CheckedRaggedLengths,
        CheckedLengthsError,
    >)
        ensures
            match result {
                Ok(lengths) => {
                    &&& lengths_valid(host@, final_row(host@))
                    &&& lengths@.host == host@
                    &&& lengths@.device.location == device_location(*device)
                    &&& lengths@.wf()
                },
                Err(CheckedLengthsError::Upload(_)) => lengths_valid(host@, final_row(host@)) && !(
                device_location(*device) is Cpu),
                Err(CheckedLengthsError::Lengths(error)) => error.label@ == "ragged"@
                    && lengths_fault(host@, final_row(host@)) == Some(error.fault),
            },
    {
        let total_rows: u32 = if host.len() == 0 {
            0
        } else {
            host[host.len() - 1]
        };
        match validate_lengths(host, total_rows, "ragged") {
            Ok(()) => CheckedRaggedLengths::accept(host, total_rows, upload_u32(host, device)),
            Err(error) => Err(CheckedLengthsError::Lengths(error)),
        }
    }

    /// The checked lengths for valid lengths that were uploaded, or the refusal of the
    /// device.
    fn accept(
        host: &[u32],
        total_rows: u32,
        uploaded: Result<candle_core::Tensor, candle_core::Error>,
    ) -> (result: Result<CheckedRaggedLengths, CheckedLengthsError>)
        requires
            lengths_valid(host@, total_rows),
            uploaded matches Ok(tensor) ==> {
                &&& crate::tensor::tensor_values(tensor) == host@.map_values(
                    |length: u32| length as int,
                )
                &&& tensor_view(tensor).dtype == DType::U32
                &&& tensor_view(tensor).dims == seq![host@.len() as usize]
                &&& tensor_view(tensor).stride == seq![1usize]
            },
        ensures
            match uploaded {
                Ok(tensor) => {
                    &&& result matches Ok(lengths)
                    &&& lengths@.host == host@
                    &&& lengths@.device == tensor_view(tensor)
                    &&& lengths@.wf()
                },
                Err(error) => result == Err::<CheckedRaggedLengths, _>(
                    CheckedLengthsError::Upload(error),
                ),
            },
    {
        match uploaded {
            Ok(device) => {
                proof {
                    let view = tensor_view(device);
                    assert(host.len() == host@.len());
                    assert(view.dims.skip(1) =~= Seq::<usize>::empty());
                    assert(!crate::tensor::order_broken_at(view.dims, view.stride, 0));
                }
                Ok(
                    CheckedRaggedLengths {
                        host: Arc::new(vstd::slice::slice_to_vec(host)),
                        device,
                        total_rows,
                    },
                )
            },
            Err(error) => Err(CheckedLengthsError::Upload(error)),
        }
    }

    /// The number of sequences.
    pub fn batch_size(&self) -> (size: usize)
        ensures
            size == self@.host.len() - 1,
            self@.wf(),
    {
        proof {
            use_type_invariant(self);
        }
        self.host.len() - 1
    }

    /// The validated final cumulative row count.
    pub fn total_rows(&self) -> (rows: u32)
        ensures
            rows == final_row(self@.host),
            self@.wf(),
    {
        proof {
            use_type_invariant(self);
        }
        self.total_rows
    }

    /// The lengths on the host. Clones share them.
    pub fn host(&self) -> (host: &Arc<Vec<u32>>)
        ensures
            host@ == self@.host,
    {
        &self.host
    }

    /// Describes the lengths on the device.
    pub fn device_desc(&self) -> (desc: TensorDesc)
        ensures
            desc@ == self@.device,
    {
        TensorDesc::of(&self.device)
    }

    /// The lengths on the device.
    ///
    /// They are the lengths that were uploaded. Candle can write through a shared handle, so
    /// whoever holds this one must not.
    pub fn device(&self) -> (device: &candle_core::Tensor)
        ensures
            crate::tensor::tensor_values(*device) == self@.uploaded,
            tensor_view(*device) == self@.device,
    {
        &self.device
    }
}

/// One of the two sides of the attention.
#[derive(Clone, Copy, Debug, PartialEq, Eq, Structural)]
pub enum Side {
    Query,
    Kv,
}

/// A count that the native kernel takes as an `i32`.
#[derive(Clone, Copy, Debug, PartialEq, Eq, Structural)]
pub enum Count {
    QueryRows,
    KvRows,
    QoHeads,
    KvHeads,
}

/// Why ragged prefill is refused.
#[derive(Clone, Copy, Debug, PartialEq, Eq, Structural)]
pub enum RaggedError {
    NotBf16,
    ScalesNotAccepted,
    DTypes,
    ExtentsOverflow,
    NotContiguous,
    Rank { side: Side, error: RankError },
    Rows,
    Shapes,
    HeadConfiguration,
    GroupSize,
    BatchSizes,
    SmScale,
    NotSameCudaDevice,
    DeviceLengths { side: Side },
    ExceedsI32 { count: Count },
    CpuUnsupported,
    ComputeCapability { sm: u32 },
    UnsupportedStorage,
    SliceDType { expected: DType, got: DType },
    TensorNotCuda,
    LengthsNotCuda,
    NativeFailed { status: i32 },
}

/// How many query heads may share one key/value head.
pub open spec fn supported_group_size(group_size: usize) -> bool {
    set![1usize, 2, 3, 4, 8, 16, 32, 64].contains(group_size)
}

pub fn is_supported_group_size(group_size: usize) -> (supported: bool)
    ensures
        supported == supported_group_size(group_size),
{
    matches!(group_size, 1 | 2 | 3 | 4 | 8 | 16 | 32 | 64)
}

/// The head widths that the kernel was built for.
pub open spec fn supported_head_dim(head_dim: usize) -> bool {
    head_dim == 64 || head_dim == 128 || head_dim == 256
}

pub fn is_supported_head_dim(head_dim: usize) -> (supported: bool)
    ensures
        supported == supported_head_dim(head_dim),
{
    matches!(head_dim, 64 | 128 | 256)
}

/// The device representation of cumulative lengths: `expected_len` contiguous `U32`
/// values at the given location.
pub open spec fn device_lengths_valid(
    lengths: TensorView,
    expected_len: usize,
    location: Location,
) -> bool {
    &&& lengths.dims == seq![expected_len]
    &&& lengths.dtype == DType::U32
    &&& lengths.contiguous()
    &&& lengths.location == location
}

/// Checks the device representation of cumulative lengths.
pub fn validate_device_lengths(
    lengths: &TensorDesc,
    expected_len: usize,
    location: Location,
    side: Side,
) -> (result: Result<(), RaggedError>)
    ensures
        result == (if device_lengths_valid(lengths@, expected_len, location) {
            Ok::<(), RaggedError>(())
        } else {
            Err(RaggedError::DeviceLengths { side })
        }),
{
    let one_axis = lengths.dims().len() == 1 && lengths.dims()[0] == expected_len;
    assert(one_axis ==> lengths@.dims =~= seq![expected_len]);
    proof {
        if one_axis {
            lemma_one_axis_fits(lengths@.dims);
        }
    }
    if !one_axis || lengths.dtype() != DType::U32 || !lengths.is_contiguous().unwrap()
        || lengths.location() != location {
        return Err(RaggedError::DeviceLengths { side });
    }
    Ok(())
}

/// A tensor that is not contiguous, or whose extents leave the `usize` before that is told.
pub open spec fn layout_fault(tensor: TensorView) -> Option<RaggedError> {
    match tensor.contiguity() {
        Some(true) => None,
        Some(false) => Some(RaggedError::NotContiguous),
        None => Some(RaggedError::ExtentsOverflow),
    }
}

fn check_layout(tensor: &TensorDesc) -> (result: Result<(), RaggedError>)
    ensures
        match result {
            Ok(()) => layout_fault(tensor@) is None,
            Err(error) => layout_fault(tensor@) == Some(error),
        },
{
    match tensor.is_contiguous() {
        Some(true) => Ok(()),
        Some(false) => Err(RaggedError::NotContiguous),
        None => Err(RaggedError::ExtentsOverflow),
    }
}

/// Everything that decides whether ragged prefill is accepted.
#[verifier::ext_equal]
pub struct RaggedRequest {
    pub q: TensorView,
    pub k: TensorView,
    pub v: TensorView,
    pub scaled: bool,
    pub kv_data_type: i32,
    pub q_lengths: LengthsView,
    pub kv_lengths: LengthsView,
    pub num_qo_heads: usize,
    pub num_kv_heads: usize,
    pub head_dim: usize,
    pub sm_scale_bits: u32,
}

/// An accepted ragged prefill: what the native kernel is told besides addresses.
#[derive(Clone, Copy, Debug, PartialEq, Eq, Structural)]
pub struct CheckedRaggedPrefill {
    pub query_rows: i32,
    pub kv_rows: i32,
    pub batch_size: i32,
    pub num_qo_heads: i32,
    pub num_kv_heads: i32,
    pub head_dim: i32,
    pub sm_scale_bits: u32,
    pub mask: RaggedMask,
}

impl RaggedRequest {
    /// The first broken rule on element types, layouts and shapes.
    pub open spec fn shape_fault(self) -> Option<RaggedError> {
        if self.kv_data_type != 1 {
            Some(RaggedError::NotBf16)
        } else if self.scaled {
            Some(RaggedError::ScalesNotAccepted)
        } else if self.q.dtype != DType::BF16 || self.k.dtype != DType::BF16 || self.v.dtype
            != DType::BF16 {
            Some(RaggedError::DTypes)
        } else if layout_fault(self.q) is Some {
            layout_fault(self.q)
        } else if layout_fault(self.k) is Some {
            layout_fault(self.k)
        } else if layout_fault(self.v) is Some {
            layout_fault(self.v)
        } else if self.q.dims.len() != 3 {
            Some(
                RaggedError::Rank {
                    side: Side::Query,
                    error: RankError { expected: 3, got: self.q.dims.len() as usize },
                },
            )
        } else if self.k.dims.len() != 3 {
            Some(
                RaggedError::Rank {
                    side: Side::Kv,
                    error: RankError { expected: 3, got: self.k.dims.len() as usize },
                },
            )
        } else if self.v.dims != self.k.dims || self.q.dims[0] != final_row(self.q_lengths.host)
            || self.k.dims[0] != final_row(self.kv_lengths.host) {
            Some(RaggedError::Rows)
        } else if self.q.dims[1] != self.num_qo_heads || self.k.dims[1] != self.num_kv_heads
            || self.q.dims[2] != self.head_dim || self.k.dims[2] != self.head_dim {
            Some(RaggedError::Shapes)
        } else {
            None
        }
    }

    /// The first broken rule on heads, batches, scale and devices.
    pub open spec fn configuration_fault(self) -> Option<RaggedError> {
        if !supported_head_dim(self.head_dim) || self.num_kv_heads == 0 || self.num_qo_heads
            % self.num_kv_heads != 0 {
            Some(RaggedError::HeadConfiguration)
        } else if !supported_group_size(self.num_qo_heads / self.num_kv_heads) {
            Some(RaggedError::GroupSize)
        } else if self.q_lengths.host.len() != self.kv_lengths.host.len() {
            Some(RaggedError::BatchSizes)
        } else if !crate::float_bits::finite_and_positive(self.sm_scale_bits) {
            Some(RaggedError::SmScale)
        } else if !(self.q.location is Cuda) || self.k.location != self.q.location
            || self.v.location != self.q.location {
            Some(RaggedError::NotSameCudaDevice)
        } else if !device_lengths_valid(
            self.q_lengths.device,
            self.q_lengths.host.len() as usize,
            self.q.location,
        ) {
            Some(RaggedError::DeviceLengths { side: Side::Query })
        } else if !device_lengths_valid(
            self.kv_lengths.device,
            self.kv_lengths.host.len() as usize,
            self.q.location,
        ) {
            Some(RaggedError::DeviceLengths { side: Side::Kv })
        } else {
            None
        }
    }

    /// The first count that is not an `i32`.
    pub open spec fn count_fault(self) -> Option<RaggedError> {
        if final_row(self.q_lengths.host) > i32::MAX {
            Some(RaggedError::ExceedsI32 { count: Count::QueryRows })
        } else if final_row(self.kv_lengths.host) > i32::MAX {
            Some(RaggedError::ExceedsI32 { count: Count::KvRows })
        } else if self.num_qo_heads > i32::MAX {
            Some(RaggedError::ExceedsI32 { count: Count::QoHeads })
        } else if self.num_kv_heads > i32::MAX {
            Some(RaggedError::ExceedsI32 { count: Count::KvHeads })
        } else {
            None
        }
    }

    /// The first broken rule.
    pub open spec fn fault(self) -> Option<RaggedError> {
        if self.shape_fault() is Some {
            self.shape_fault()
        } else if self.configuration_fault() is Some {
            self.configuration_fault()
        } else {
            self.count_fault()
        }
    }

    /// What the native kernel is told of a request that breaks no rule.
    pub open spec fn prefill(self, mask: RaggedMask) -> CheckedRaggedPrefill {
        CheckedRaggedPrefill {
            query_rows: final_row(self.q_lengths.host) as i32,
            kv_rows: final_row(self.kv_lengths.host) as i32,
            batch_size: (self.q_lengths.host.len() - 1) as i32,
            num_qo_heads: self.num_qo_heads as i32,
            num_kv_heads: self.num_kv_heads as i32,
            head_dim: self.head_dim as i32,
            sm_scale_bits: self.sm_scale_bits,
            mask,
        }
    }
}

fn check_count(count: Count, value: u64) -> (result: Result<(), RaggedError>)
    ensures
        result == (if value > i32::MAX {
            Err(RaggedError::ExceedsI32 { count })
        } else {
            Ok::<(), RaggedError>(())
        }),
{
    if value > i32::MAX as u64 {
        return Err(RaggedError::ExceedsI32 { count });
    }
    Ok(())
}

/// Whether two tensors have the same extents.
fn same_dims(lhs: &TensorDesc, rhs: &TensorDesc) -> (same: bool)
    ensures
        same == (lhs@.dims == rhs@.dims),
{
    let n: usize = lhs.dims().len();
    if rhs.dims().len() != n {
        return false;
    }
    let mut axis: usize = 0;
    while axis < n
        invariant
            n == lhs@.dims.len(),
            n == rhs@.dims.len(),
            axis <= n,
            forall|i: int| 0 <= i < axis ==> lhs@.dims[i] == rhs@.dims[i],
        decreases n - axis,
    {
        if lhs.dims()[axis] != rhs.dims()[axis] {
            return false;
        }
        axis = axis + 1;
    }
    assert(lhs@.dims =~= rhs@.dims);
    true
}

/// Checks every rule of ragged prefill.
///
/// `sm_scale_bits` are the bits of the single-precision softmax scale.
pub fn validate_contract(
    q: &TensorDesc,
    k: &TensorDesc,
    v: &TensorDesc,
    k_scale: Option<&candle_core::Tensor>,
    v_scale: Option<&candle_core::Tensor>,
    kv_data_type: i32,
    q_lengths: &CheckedRaggedLengths,
    kv_lengths: &CheckedRaggedLengths,
    num_qo_heads: usize,
    num_kv_heads: usize,
    head_dim: usize,
    sm_scale_bits: u32,
) -> (result: Result<(), RaggedError>)
    ensures
        ({
            let request = RaggedRequest {
                q: q@,
                k: k@,
                v: v@,
                scaled: k_scale is Some || v_scale is Some,
                kv_data_type,
                q_lengths: q_lengths@,
                kv_lengths: kv_lengths@,
                num_qo_heads,
                num_kv_heads,
                head_dim,
                sm_scale_bits,
            };
            match result {
                Ok(()) => request.fault() is None,
                Err(error) => request.fault() == Some(error),
            }
        }),
{
    let ghost request = RaggedRequest {
        q: q@,
        k: k@,
        v: v@,
        scaled: k_scale is Some || v_scale is Some,
        kv_data_type,
        q_lengths: q_lengths@,
        kv_lengths: kv_lengths@,
        num_qo_heads,
        num_kv_heads,
        head_dim,
        sm_scale_bits,
    };
    if kv_data_type != 1 {
        return Err(RaggedError::NotBf16);
    }
    if k_scale.is_some() || v_scale.is_some() {
        return Err(RaggedError::ScalesNotAccepted);
    }
    if q.dtype() != DType::BF16 || k.dtype() != DType::BF16 || v.dtype() != DType::BF16 {
        return Err(RaggedError::DTypes);
    }
    check_layout(q)?;
    check_layout(k)?;
    check_layout(v)?;
    let (q_rows, q_heads, q_dim): (usize, usize, usize) = match q.dims3() {
        Ok(dims) => dims,
        Err(error) => {
            return Err(RaggedError::Rank { side: Side::Query, error });
        },
    };
    let (kv_rows, kv_heads, kv_dim): (usize, usize, usize) = match k.dims3() {
        Ok(dims) => dims,
        Err(error) => {
            return Err(RaggedError::Rank { side: Side::Kv, error });
        },
    };
    let query_total: u64 = q_lengths.total_rows() as u64;
    let kv_total: u64 = kv_lengths.total_rows() as u64;
    if !same_dims(v, k) || q_rows as u64 != query_total || kv_rows as u64 != kv_total {
        return Err(RaggedError::Rows);
    }
    if q_heads != num_qo_heads || kv_heads != num_kv_heads || q_dim != head_dim || kv_dim
        != head_dim {
        return Err(RaggedError::Shapes);
    }
    assert(request.shape_fault() is None);
    if !is_supported_head_dim(head_dim) || num_kv_heads == 0 || num_qo_heads % num_kv_heads != 0 {
        return Err(RaggedError::HeadConfiguration);
    }
    if !is_supported_group_size(num_qo_heads / num_kv_heads) {
        return Err(RaggedError::GroupSize);
    }
    let batch: usize = q_lengths.batch_size();
    let kv_batch: usize = kv_lengths.batch_size();
    if batch != kv_batch {
        return Err(RaggedError::BatchSizes);
    }
    if !is_finite_and_positive(sm_scale_bits) {
        return Err(RaggedError::SmScale);
    }
    let location = q.location();
    let on_cuda = match location {
        Location::Cuda { gpu_id: _ } => true,
        _ => false,
    };
    if !on_cuda || location != k.location() || location != v.location() {
        return Err(RaggedError::NotSameCudaDevice);
    }
    validate_device_lengths(&q_lengths.device_desc(), batch + 1, location, Side::Query)?;
    validate_device_lengths(&kv_lengths.device_desc(), kv_batch + 1, location, Side::Kv)?;
    assert(request.configuration_fault() is None);
    check_count(Count::QueryRows, query_total)?;
    check_count(Count::KvRows, kv_total)?;
    check_count(Count::QoHeads, num_qo_heads as u64)?;
    check_count(Count::KvHeads, num_kv_heads as u64)?;
    Ok(())
}

/// Plans checked direct Q/K/V ragged prefill with an explicit mask mode.
pub fn prefill_ragged_with_mask(
    q: &TensorDesc,
    k: &TensorDesc,
    v: &TensorDesc,
    k_scale: Option<&candle_core::Tensor>,
    v_scale: Option<&candle_core::Tensor>,
    kv_data_type: i32,
    q_lengths: &CheckedRaggedLengths,
    kv_lengths: &CheckedRaggedLengths,
    num_qo_heads: usize,
    num_kv_heads: usize,
    head_dim: usize,
    sm_scale_bits: u32,
    mask: RaggedMask,
) -> (result: Result<CheckedRaggedPrefill, RaggedError>)
    ensures
        ({
            let request = RaggedRequest {
                q: q@,
                k: k@,
                v: v@,
                scaled: k_scale is Some || v_scale is Some,
                kv_data_type,
                q_lengths: q_lengths@,
                kv_lengths: kv_lengths@,
                num_qo_heads,
                num_kv_heads,
                head_dim,
                sm_scale_bits,
            };
            match result {
                Ok(prefill) => request.fault() is None && prefill == request.prefill(mask),
                Err(error) => request.fault() == Some(error),
            }
        }),
        q_lengths@.wf(),
        kv_lengths@.wf(),
{
    let query_rows: u32 = q_lengths.total_rows();
    let kv_rows: u32 = kv_lengths.total_rows();
    let batch_size: usize = q_lengths.batch_size();
    validate_contract(
        q,
        k,
        v,
        k_scale,
        v_scale,
        kv_data_type,
        q_lengths,
        kv_lengths,
        num_qo_heads,
        num_kv_heads,
        head_dim,
        sm_scale_bits,
    )?;
    proof {
        law_a_batch_has_no_more_sequences_than_rows(q_lengths@);
    }
    Ok(
        CheckedRaggedPrefill {
            query_rows: query_rows as i32,
            kv_rows: kv_rows as i32,
            batch_size: batch_size as i32,
            num_qo_heads: num_qo_heads as i32,
            num_kv_heads: num_kv_heads as i32,
            head_dim: head_dim as i32,
            sm_scale_bits,
            mask,
        },
    )
}

/// Plans checked ragged prefill of Candle tensors.
pub fn prefill_ragged_tensors(
    q: &candle_core::Tensor,
    k: &candle_core::Tensor,
    v: &candle_core::Tensor,
    k_scale: Option<&candle_core::Tensor>,
    v_scale: Option<&candle_core::Tensor>,
    kv_data_type: i32,
    q_lengths: &CheckedRaggedLengths,
    kv_lengths: &CheckedRaggedLengths,
    num_qo_heads: usize,
    num_kv_heads: usize,
    head_dim: usize,
    sm_scale_bits: u32,
    mask: RaggedMask,
) -> (result: Result<CheckedRaggedPrefill, RaggedError>)
    ensures
        ({
            let request = RaggedRequest {
                q: tensor_view(*q),
                k: tensor_view(*k),
                v: tensor_view(*v),
                scaled: k_scale is Some || v_scale is Some,
                kv_data_type,
                q_lengths: q_lengths@,
                kv_lengths: kv_lengths@,
                num_qo_heads,
                num_kv_heads,
                head_dim,
                sm_scale_bits,
            };
            match result {
                Ok(prefill) => request.fault() is None && prefill == request.prefill(mask),
                Err(error) => request.fault() == Some(error),
            }
        }),
{
    prefill_ragged_with_mask(
        &TensorDesc::of(q),
        &TensorDesc::of(k),
        &TensorDesc::of(v),
        k_scale,
        v_scale,
        kv_data_type,
        q_lengths,
        kv_lengths,
        num_qo_heads,
        num_kv_heads,
        head_dim,
        sm_scale_bits,
        mask,
    )
}

/// Checked lengths pass the check on their device representation wherever their tensor
/// lives, and only there.
pub proof fn law_checked_lengths_pass_at_their_own_location(
    lengths: LengthsView,
    location: Location,
)
    requires
        lengths.wf(),
    ensures
        device_lengths_valid(lengths.device, lengths.host.len() as usize, location) <==> location
            == lengths.device.location,
{
}

proof fn lemma_lengths_at_least_index(lengths: Seq<u32>, index: int)
    requires
        strictly_increasing(lengths),
        0 <= index < lengths.len(),
    ensures
        lengths[index] >= index,
    decreases index,
{
    if index > 0 {
        lemma_lengths_at_least_index(lengths, index - 1);
        assert(lengths[index - 1] < lengths[index]);
    }
}

/// Every sequence has a row, so a batch has no more sequences than rows: where the row
/// count is an `i32`, so is the number of sequences.
pub proof fn law_a_batch_has_no_more_sequences_than_rows(lengths: LengthsView)
    requires
        lengths.wf(),
    ensures
        1 <= lengths.host.len() - 1 <= final_row(lengths.host),
{
    lemma_lengths_at_least_index(lengths.host, lengths.host.len() - 1);
}

/// What the native kernel is called with, apart from its output, its workspaces, its
/// stream and the lengths on the host.
#[derive(Clone, Copy, Debug, PartialEq, Eq, Structural)]
pub struct RaggedLaunch {
    pub q: u64,
    pub k: u64,
    pub v: u64,
    pub q_lengths: u64,
    pub kv_lengths: u64,
    pub prefill: CheckedRaggedPrefill,
    pub mask: i32,
    pub data_type: i32,
    pub output_elements: usize,
}

/// The lowest compute capability that the native kernel runs on.
pub const MINIMUM_SM: u32 = 90;

/// The first reason why a slice cannot be read as half-precision elements of the given
/// type.
pub open spec fn slice_fault(slice: CudaSlice, dtype: DType) -> Option<RaggedError> {
    if dtype != DType::BF16 && dtype != DType::F16 {
        Some(RaggedError::UnsupportedStorage)
    } else if slice.dtype != dtype {
        Some(RaggedError::SliceDType { expected: dtype, got: slice.dtype })
    } else {
        None
    }
}

/// The first reason why a tensor cannot be read as half-precision elements on a CUDA
/// device.
pub open spec fn tensor_fault(stored: StoredView) -> Option<RaggedError> {
    match stored.storage {
        Storage::Cuda(slice) => slice_fault(slice, stored.tensor.dtype),
        _ => Some(RaggedError::TensorNotCuda),
    }
}

/// The first reason why a tensor cannot be read as lengths on a CUDA device.
pub open spec fn u32_fault(stored: StoredView) -> Option<RaggedError> {
    match stored.storage {
        Storage::Cuda(slice) => if slice.dtype != DType::U32 {
            Some(RaggedError::SliceDType { expected: DType::U32, got: slice.dtype })
        } else {
            None
        },
        _ => Some(RaggedError::LengthsNotCuda),
    }
}

fn check_slice(slice: CudaSlice, dtype: DType) -> (result: Result<(), RaggedError>)
    ensures
        match result {
            Ok(()) => slice_fault(slice, dtype) is None,
            Err(error) => slice_fault(slice, dtype) == Some(error),
        },
{
    match dtype {
        DType::BF16 | DType::F16 => {
            if slice.dtype != dtype {
                return Err(RaggedError::SliceDType { expected: dtype, got: slice.dtype });
            }
            Ok(())
        },
        _ => Err(RaggedError::UnsupportedStorage),
    }
}

fn check_tensor(stored: &StoredTensor) -> (result: Result<CudaSlice, RaggedError>)
    ensures
        match result {
            Ok(slice) => tensor_fault(stored@) is None && stored@.storage == Storage::Cuda(slice),
            Err(error) => tensor_fault(stored@) == Some(error),
        },
{
    match stored.storage {
        Storage::Cuda(slice) => {
            check_slice(slice, stored.desc.dtype())?;
            Ok(slice)
        },
        _ => Err(RaggedError::TensorNotCuda),
    }
}

fn check_u32(stored: &StoredTensor) -> (result: Result<CudaSlice, RaggedError>)
    ensures
        match result {
            Ok(slice) => u32_fault(stored@) is None && stored@.storage == Storage::Cuda(slice),
            Err(error) => u32_fault(stored@) == Some(error),
        },
{
    match stored.storage {
        Storage::Cuda(slice) => {
            if slice.dtype != DType::U32 {
                return Err(RaggedError::SliceDType { expected: DType::U32, got: slice.dtype });
            }
            Ok(slice)
        },
        _ => Err(RaggedError::LengthsNotCuda),
    }
}

/// The address of the first element of a half-precision slice.
pub fn storage_ptr(stored: &StoredTensor, slice: CudaSlice, dtype: DType) -> (result: Result<
    u64,
    RaggedError,
>)
    requires
        stored@.storage == Storage::Cuda(slice),
        slice_fault(slice, dtype) is None ==> stored@.addressable(),
    ensures
        match result {
            Ok(address) => slice_fault(slice, dtype) is None && address == stored@.address(),
            Err(error) => slice_fault(slice, dtype) == Some(error),
        },
{
    check_slice(slice, dtype)?;
    Ok(stored.element_address(slice))
}

/// The address of the first element of a half-precision tensor.
pub fn tensor_ptr(stored: &StoredTensor) -> (result: Result<u64, RaggedError>)
    requires
        tensor_fault(stored@) is None ==> stored@.addressable(),
    ensures
        match result {
            Ok(address) => tensor_fault(stored@) is None && address == stored@.address(),
            Err(error) => tensor_fault(stored@) == Some(error),
        },
{
    let slice = check_tensor(stored)?;
    Ok(stored.element_address(slice))
}

/// The address of the first of the lengths on the device.
pub fn tensor_u32_ptr(stored: &StoredTensor) -> (result: Result<u64, RaggedError>)
    requires
        u32_fault(stored@) is None ==> stored@.addressable(),
    ensures
        match result {
            Ok(address) => u32_fault(stored@) is None && address == stored@.address(),
            Err(error) => u32_fault(stored@) == Some(error),
        },
{
    let slice = check_u32(stored)?;
    Ok(stored.element_address(slice))
}

/// The first reason why an accepted prefill cannot be launched. An unknown compute
/// capability counts as zero.
pub open spec fn launch_fault(
    sm_version: Option<u32>,
    q: StoredView,
    key: StoredView,
    value: StoredView,
    q_lengths: StoredView,
    kv_lengths: StoredView,
) -> Option<RaggedError> {
    let sm = match sm_version {
        Some(sm) => sm,
        None => 0,
    };
    if sm < MINIMUM_SM {
        Some(RaggedError::ComputeCapability { sm })
    } else if slice_fault(q.storage->Cuda_0, q.storage->Cuda_0.dtype) is Some {
        slice_fault(q.storage->Cuda_0, q.storage->Cuda_0.dtype)
    } else if tensor_fault(key) is Some {
        tensor_fault(key)
    } else if tensor_fault(value) is Some {
        tensor_fault(value)
    } else if u32_fault(q_lengths) is Some {
        u32_fault(q_lengths)
    } else if u32_fault(kv_lengths) is Some {
        u32_fault(kv_lengths)
    } else if !q.tensor.countable() {
        Some(RaggedError::ExtentsOverflow)
    } else {
        None
    }
}

/// The launch of a prefill that is bound to the device addresses of its operands.
pub open spec fn launches(
    launch: RaggedLaunch,
    prefill: CheckedRaggedPrefill,
    q: StoredView,
    key: StoredView,
    value: StoredView,
    q_lengths: StoredView,
    kv_lengths: StoredView,
) -> bool {
    &&& launch.q == q.address()
    &&& launch.k == key.address()
    &&& launch.v == value.address()
    &&& launch.q_lengths == q_lengths.address()
    &&& launch.kv_lengths == kv_lengths.address()
    &&& launch.prefill == prefill
    &&& launch.mask == prefill.mask.native()
    &&& launch.data_type == (if q.storage->Cuda_0.dtype == DType::BF16 {
        1int
    } else {
        0
    })
    &&& launch.output_elements == q.tensor.elem_count()
}

impl CheckedRaggedPrefill {
    /// The name under which the operation is known.
    pub fn name(&self) -> (name: &'static str)
        ensures
            name@ == "checked-flashinfer-ragged-prefill"@,
    {
        "checked-flashinfer-ragged-prefill"
    }

    /// There is no ragged prefill on the host.
    pub fn cpu_fwd(&self) -> (result: Result<RaggedLaunch, RaggedError>)
        ensures
            result == Err::<RaggedLaunch, _>(RaggedError::CpuUnsupported),
    {
        Err(RaggedError::CpuUnsupported)
    }

    /// Binds the prefill to the device addresses of its operands.
    pub fn cuda_fwd(
        &self,
        sm_version: Option<u32>,
        q: &StoredTensor,
        key: &StoredTensor,
        value: &StoredTensor,
        q_lengths: &StoredTensor,
        kv_lengths: &StoredTensor,
    ) -> (result: Result<RaggedLaunch, RaggedError>)
        requires
            q@.storage is Cuda,
            launch_fault(sm_version, q@, key@, value@, q_lengths@, kv_lengths@) is None ==> {
                &&& q@.addressable()
                &&& key@.addressable()
                &&& value@.addressable()
                &&& q_lengths@.addressable()
                &&& kv_lengths@.addressable()
            },
        ensures
            match result {
                Ok(launch) => {
                    &&& launch_fault(sm_version, q@, key@, value@, q_lengths@, kv_lengths@)
                        is None
                    &&& launches(launch, *self, q@, key@, value@, q_lengths@, kv_lengths@)
                },
                Err(error) => launch_fault(
                    sm_version,
                    q@,
                    key@,
                    value@,
                    q_lengths@,
                    kv_lengths@,
                ) == Some(error),
            },
    {
        let sm: u32 = match sm_version {
            Some(sm) => sm,
            None => 0,
        };
        if sm < MINIMUM_SM {
            return Err(RaggedError::ComputeCapability { sm });
        }
        let q_slice = match q.storage {
            Storage::Cuda(slice) => slice,
            _ => {
                return Err(RaggedError::TensorNotCuda);
            },
        };
        check_slice(q_slice, q_slice.dtype)?;
        check_tensor(key)?;
        check_tensor(value)?;
        check_u32(q_lengths)?;
        check_u32(kv_lengths)?;
        let output_elements: usize = match q.desc.elem_count() {
            Some(count) => count,
            None => {
                return Err(RaggedError::ExtentsOverflow);
            },
        };
        let q_address: u64 = storage_ptr(q, q_slice, q_slice.dtype)?;
        let k_address: u64 = tensor_ptr(key)?;
        let v_address: u64 = tensor_ptr(value)?;
        let q_lengths_address: u64 = tensor_u32_ptr(q_lengths)?;
        let kv_lengths_address: u64 = tensor_u32_ptr(kv_lengths)?;
        let data_type: i32 = if q_slice.dtype == DType::BF16 {
            1
        } else {
            0
        };
        Ok(
            RaggedLaunch {
                q: q_address,
                k: k_address,
                v: v_address,
                q_lengths: q_lengths_address,
                kv_lengths: kv_lengths_address,
                prefill: *self,
                mask: self.mask.code(),
                data_type,
                output_elements,
            },
        )
    }
}

/// What the status of the native kernel means: zero is success.
pub fn launch_outcome(status: i32) -> (result: Result<(), RaggedError>)
    ensures
        result == (if status == 0 {
            Ok::<(), RaggedError>(())
        } else {
            Err(RaggedError::NativeFailed { status })
        }),
{
    if status != 0 {
        return Err(RaggedError::NativeFailed { status });
    }
    Ok(())
}

/// The row belongs to the sequence.
pub open spec fn row_in_sequence(lengths: Seq<u32>, sequence: int, row: int) -> bool {
    0 <= sequence < lengths.len() - 1 && lengths[sequence] <= row < lengths[sequence + 1]
}

/// The row belongs to some sequence.
pub open spec fn row_covered(lengths: Seq<u32>, row: int) -> bool {
    exists|sequence: int| row_in_sequence(lengths, sequence, row)
}

proof fn lemma_row_has_sequence(lengths: Seq<u32>, upto: int, row: int)
    requires
        lengths.len() > 0,
        lengths[0] == 0,
        0 < upto < lengths.len(),
        0 <= row < lengths[upto],
    ensures
        row_covered(lengths, row),
    decreases upto,
{
    if lengths[upto - 1] <= row {
        assert(row_in_sequence(lengths, upto - 1, row));
    } else {
        lemma_row_has_sequence(lengths, upto - 1, row);
    }
}

/// The sequences of checked lengths partition the rows: every row up to the total belongs
/// to exactly one of them, and each of them has a row.
pub proof fn law_sequences_partition_the_rows(lengths: LengthsView)
    requires
        lengths.wf(),
    ensures
        forall|row: int|
            0 <= row < final_row(lengths.host) ==> #[trigger] row_covered(lengths.host, row),
        forall|first: int, second: int, row: int|
            #[trigger] row_in_sequence(lengths.host, first, row) && #[trigger] row_in_sequence(
                lengths.host,
                second,
                row,
            ) ==> first == second,
        forall|sequence: int|
            0 <= sequence < lengths.host.len() - 1 ==> #[trigger] row_in_sequence(
                lengths.host,
                sequence,
                lengths.host[sequence] as int,
            ),
        forall|sequence: int, row: int|
            #[trigger] row_in_sequence(lengths.host, sequence, row) ==> 0 <= row < final_row(
                lengths.host,
            ),
{
    let host = lengths.host;
    assert forall|row: int| 0 <= row < final_row(host) implies #[trigger] row_covered(
        host,
        row,
    ) by {
        lemma_row_has_sequence(host, host.len() - 1, row);
    }
    assert forall|first: int, second: int, row: int|
        #[trigger] row_in_sequence(host, first, row) && #[trigger] row_in_sequence(
            host,
            second,
            row,
        ) implies first == second by {
        if first < second {
            assert(first + 1 == second || host[first + 1] < host[second]);
        } else if second < first {
            assert(second + 1 == first || host[second + 1] < host[first]);
        }
    }
    assert forall|sequence: int, row: int|
        #[trigger] row_in_sequence(host, sequence, row) implies 0 <= row < final_row(host) by {
        assert(sequence + 1 == host.len() - 1 || host[sequence + 1] < host[host.len() - 1]);
    }
}

/// An accepted prefill: the kernel is told every count as it is, the query heads split
/// into equal groups of a supported size over the key/value heads, and the row counts are
/// those of the tensors.
pub proof fn law_accepted_prefill_is_faithful(request: RaggedRequest, mask: RaggedMask)
    requires
        request.fault() is None,
        request.q_lengths.wf(),
        request.kv_lengths.wf(),
    ensures
        ({
            let prefill = request.prefill(mask);
            let group = request.num_qo_heads / request.num_kv_heads;
            &&& prefill.query_rows == request.q.dims[0]
            &&& prefill.kv_rows == request.k.dims[0]
            &&& request.v.dims == request.k.dims
            &&& prefill.batch_size == request.q_lengths.host.len() - 1
            &&& prefill.batch_size == request.kv_lengths.host.len() - 1
            &&& prefill.num_qo_heads == request.num_qo_heads
            &&& prefill.num_kv_heads == request.num_kv_heads
            &&& prefill.head_dim == request.head_dim
            &&& prefill.num_qo_heads == prefill.num_kv_heads * group
            &&& supported_group_size(group)
            &&& supported_head_dim(request.head_dim)
            &&& 1 <= prefill.batch_size <= prefill.query_rows
            &&& prefill.batch_size <= prefill.kv_rows
        }),
{
    law_a_batch_has_no_more_sequences_than_rows(request.q_lengths);
    law_a_batch_has_no_more_sequences_than_rows(request.kv_lengths);
    vstd::arithmetic::div_mod::lemma_fundamental_div_mod(
        request.num_qo_heads as int,
        request.num_kv_heads as int,
    );
}

/// An accepted prefill that is bound to its own tensors is launched with its own counts,
/// scalars and mask, and with the addresses at which those tensors start. The query output
/// has one element for each row, head and channel.
pub proof fn law_an_accepted_prefill_is_the_one_launched(
    request: RaggedRequest,
    mask: RaggedMask,
    sm_version: Option<u32>,
    q: StoredView,
    key: StoredView,
    value: StoredView,
    q_lengths: StoredView,
    kv_lengths: StoredView,
    launch: RaggedLaunch,
)
    requires
        request.fault() is None,
        request.q_lengths.wf(),
        request.kv_lengths.wf(),
        q.storage is Cuda,
        q.tensor == request.q,
        key.tensor == request.k,
        value.tensor == request.v,
        q_lengths.tensor == request.q_lengths.device,
        kv_lengths.tensor == request.kv_lengths.device,
        launch_fault(sm_version, q, key, value, q_lengths, kv_lengths) is None,
        launches(launch, request.prefill(mask), q, key, value, q_lengths, kv_lengths),
    ensures
        launch.prefill.query_rows == request.q.dims[0],
        launch.prefill.kv_rows == request.k.dims[0],
        launch.prefill.batch_size == request.q_lengths.host.len() - 1,
        launch.prefill.num_qo_heads == request.num_qo_heads,
        launch.prefill.num_kv_heads == request.num_kv_heads,
        launch.prefill.head_dim == request.head_dim,
        launch.prefill.sm_scale_bits == request.sm_scale_bits,
        launch.mask == mask.native(),
        launch.output_elements == request.q.dims[0] * request.num_qo_heads * request.head_dim,
        q.storage->Cuda_0.dtype == request.q.dtype ==> launch.data_type == 1,
        launch.q == q.storage->Cuda_0.base + request.q.start_offset * 2,
        launch.k == key.storage->Cuda_0.base + request.k.start_offset * 2,
        launch.v == value.storage->Cuda_0.base + request.v.start_offset * 2,
        launch.q_lengths == q_lengths.storage->Cuda_0.base + request.q_lengths.device.start_offset
            * 4,
        launch.kv_lengths == kv_lengths.storage->Cuda_0.base
            + request.kv_lengths.device.start_offset * 4,
{
    law_accepted_prefill_is_faithful(request, mask);
    let dims = request.q.dims;
    crate::tensor::lemma_product_first(dims);
    crate::tensor::lemma_product_of_two(dims.drop_first());
    assert(dims[0] * (dims[1] * dims[2]) == dims[0] * dims[1] * dims[2]) by (nonlinear_arith);
}

/// Cumulative lengths are taken on exactly where there are at least two, the first is zero,
/// the last is the total and each is above the one before it. A refusal says which of these
/// failed first.
pub proof fn law_lengths_rise_from_zero_to_the_total(lengths: Seq<u32>, total_rows: u32)
    ensures
        ({
            let ends = lengths.len() >= 2 && lengths[0] == 0 && lengths[lengths.len() - 1]
                == total_rows;
            let rising = forall|i: int|
                0 < i < lengths.len() ==> lengths[i - 1] < #[trigger] lengths[i];
            &&& lengths_valid(lengths, total_rows) <==> ends && rising
            &&& match lengths_fault(lengths, total_rows) {
                None => ends && rising,
                Some(LengthsFault::Ends { total_rows: total }) => !ends && total == total_rows,
                Some(LengthsFault::NotIncreasing) => ends && !rising,
            }
            &&& lengths.len() == 0 ==> final_row(lengths) == 0
            &&& lengths.len() > 0 ==> final_row(lengths) == lengths[lengths.len() - 1]
        }),
{
    if forall|i: int| 0 < i < lengths.len() ==> lengths[i - 1] < #[trigger] lengths[i] {
        assert forall|i: int, j: int| 0 <= i < j < lengths.len() implies lengths[i]
            < lengths[j] by {
            lemma_rising(lengths, i, j);
        }
    } else if strictly_increasing(lengths) {
        assert forall|i: int| 0 < i < lengths.len() implies lengths[i - 1]
            < #[trigger] lengths[i] by {
            assert(lengths[i - 1] < lengths[i]);
        }
    }
}

proof fn lemma_rising(lengths: Seq<u32>, low: int, high: int)
    requires
        forall|i: int| 0 < i < lengths.len() ==> lengths[i - 1] < #[trigger] lengths[i],
        0 <= low < high < lengths.len(),
    ensures
        lengths[low] < lengths[high],
    decreases high - low,
{
    assert(lengths[high - 1] < lengths[high]);
    if low < high - 1 {
        lemma_rising(lengths, low, high - 1);
    }
}

/// Lengths are checked lengths exactly where they rise from zero over at least one sequence
/// and the device holds the same ones as one contiguous `U32` axis.
pub proof fn law_checked_lengths_are_rising_and_uploaded(lengths: LengthsView)
    requires
        lengths.host.len() <= usize::MAX,
    ensures
        lengths.wf() <==> {
            &&& lengths.host.len() >= 2 && lengths.host[0] == 0
            &&& forall|i: int|
                0 < i < lengths.host.len() ==> lengths.host[i - 1] < #[trigger] lengths.host[i]
            &&& lengths.uploaded.len() == lengths.host.len()
            &&& forall|i: int|
                0 <= i < lengths.host.len() ==> #[trigger] lengths.uploaded[i] == lengths.host[i]
            &&& lengths.device.dtype is U32
            &&& lengths.device.dims.len() == 1 && lengths.device.dims[0] == lengths.host.len()
            &&& lengths.device.contiguous()
        },
{
    law_lengths_rise_from_zero_to_the_total(lengths.host, final_row(lengths.host));
    let copied = lengths.host.map_values(|length: u32| length as int);
    if lengths.uploaded.len() == lengths.host.len() && (forall|i: int|
        0 <= i < lengths.host.len() ==> #[trigger] lengths.uploaded[i] == lengths.host[i]) {
        assert(lengths.uploaded =~= copied);
    }
    if lengths.uploaded == copied {
        assert forall|i: int| 0 <= i < lengths.host.len() implies #[trigger] lengths.uploaded[i]
            == lengths.host[i] by {
            assert(copied[i] == lengths.host[i]);
        }
    }
    if lengths.device.dims.len() == 1 && lengths.device.dims[0] == lengths.host.len() {
        assert(lengths.device.dims =~= seq![lengths.host.len() as usize]);
    }
}

/// The device holds the same lengths as the host, in order, one `U32` each.
pub proof fn law_host_and_device_lengths_agree(lengths: LengthsView, i: int)
    requires
        lengths.wf(),
    ensures
        lengths.uploaded.len() == lengths.host.len(),
        0 <= i < lengths.host.len() ==> lengths.uploaded[i] == lengths.host[i],
        lengths.device.dtype is U32,
        lengths.device.dims.len() == 1,
        lengths.device.dims[0] == lengths.host.len(),
        lengths.device.contiguous(),
{
}

/// The mask codes are zero for non-causal and one for causal attention.
pub proof fn law_masks_have_their_native_codes(mask: RaggedMask)
    ensures
        mask.native() == 0 <==> mask is NonCausal,
        mask.native() == 1 <==> mask is Causal,
{
}

/// Groups of one, two or three heads and of a power of two from four to sixty-four are
/// supported, and head widths of 64, 128 and 256.
pub proof fn law_supported_groups_and_widths(size: usize)
    ensures
        supported_group_size(size) <==> size == 1 || size == 2 || size == 3 || size == 4 || size
            == 8 || size == 16 || size == 32 || size == 64,
        supported_head_dim(size) <==> size == 64 || size == 128 || size == 256,
{
}

/// A device representation is valid exactly where it is one axis of the expected length, `U32`,
/// contiguous and at the location.
pub proof fn law_device_lengths_are_one_u32_axis(
    lengths: TensorView,
    expected_len: usize,
    location: Location,
)
    ensures
        device_lengths_valid(lengths, expected_len, location) <==> {
            &&& lengths.dims.len() == 1 && lengths.dims[0] == expected_len
            &&& lengths.dtype is U32
            &&& lengths.contiguous()
            &&& lengths.location == location
        },
{
    if lengths.dims.len() == 1 && lengths.dims[0] == expected_len {
        assert(lengths.dims =~= seq![expected_len]);
    }
}

/// Contiguous `BF16` queries, keys and values at one CUDA location, with the rows of checked
/// lengths at that location, the declared heads and a supported head width and group size, are
/// never refused. The kernel is told the rows, sequences, heads and width that they have.
pub proof fn law_a_sound_prefill_is_accepted(request: RaggedRequest, mask: RaggedMask)
    requires
        request.kv_data_type == 1,
        !request.scaled,
        request.q.dtype is BF16,
        request.k.dtype is BF16,
        request.v.dtype is BF16,
        request.q.contiguity() == Some(true),
        request.k.contiguity() == Some(true),
        request.v.contiguity() == Some(true),
        request.q.dims.len() == 3,
        request.k.dims.len() == 3,
        request.v.dims == request.k.dims,
        request.q_lengths.wf(),
        request.kv_lengths.wf(),
        request.q.dims[0] == request.q_lengths.host.last(),
        request.k.dims[0] == request.kv_lengths.host.last(),
        request.q.dims[1] == request.num_qo_heads,
        request.k.dims[1] == request.num_kv_heads,
        request.q.dims[2] == request.head_dim,
        request.k.dims[2] == request.head_dim,
        request.head_dim == 64 || request.head_dim == 128 || request.head_dim == 256,
        request.num_kv_heads > 0,
        exists|group: int|
            request.num_qo_heads == #[trigger] (group * request.num_kv_heads) && (group == 1
                || group == 2 || group == 3 || group == 4 || group == 8 || group == 16 || group
                == 32 || group == 64),
        request.q_lengths.host.len() == request.kv_lengths.host.len(),
        0 < request.sm_scale_bits < 0x7f80_0000,
        request.q.location is Cuda,
        request.k.location == request.q.location,
        request.v.location == request.q.location,
        request.q_lengths.device.location == request.q.location,
        request.kv_lengths.device.location == request.q.location,
        request.q.dims[0] <= i32::MAX,
        request.k.dims[0] <= i32::MAX,
        request.num_qo_heads <= i32::MAX,
        request.num_kv_heads <= i32::MAX,
    ensures
        request.fault() is None,
        request.prefill(mask).query_rows == request.q.dims[0],
        request.prefill(mask).kv_rows == request.k.dims[0],
        request.prefill(mask).batch_size == request.q_lengths.host.len() - 1,
        request.prefill(mask).num_qo_heads == request.q.dims[1],
        request.prefill(mask).num_kv_heads == request.k.dims[1],
        request.prefill(mask).head_dim == request.q.dims[2],
        request.prefill(mask).sm_scale_bits == request.sm_scale_bits,
        request.prefill(mask).mask == mask,
{
    let group = choose|group: int|
        request.num_qo_heads == #[trigger] (group * request.num_kv_heads) && (group == 1 || group
            == 2 || group == 3 || group == 4 || group == 8 || group == 16 || group == 32 || group
            == 64);
    vstd::arithmetic::div_mod::lemma_div_multiples_vanish(group, request.num_kv_heads as int);
    vstd::arithmetic::div_mod::lemma_mod_multiples_basic(group, request.num_kv_heads as int);
    assert(request.num_kv_heads as int * group == group * request.num_kv_heads as int)
        by (nonlinear_arith);
    assert(request.num_qo_heads / request.num_kv_heads == group);
    law_a_batch_has_no_more_sequences_than_rows(request.q_lengths);
}

/// A prefill is refused for a rule that it breaks while it keeps all rules before that one,
/// and the refusal reports what was found.
pub proof fn law_a_refused_prefill_breaks_the_rule_it_is_refused_for(request: RaggedRequest)
    ensures
        ({
            let q = request.q;
            let k = request.k;
            let v = request.v;
            let q_host = request.q_lengths.host;
            let kv_host = request.kv_lengths.host;
            let q_device = request.q_lengths.device;
            let kv_device = request.kv_lengths.device;
            let q_total = if q_host.len() == 0 {
                0
            } else {
                q_host[q_host.len() - 1]
            };
            let kv_total = if kv_host.len() == 0 {
                0
            } else {
                kv_host[kv_host.len() - 1]
            };
            let group = request.num_qo_heads as int / request.num_kv_heads as int;
            let halves = request.kv_data_type == 1;
            let plain = halves && !request.scaled;
            let typed = plain && q.dtype is BF16 && k.dtype is BF16 && v.dtype is BF16;
            let q_laid_out = typed && q.contiguity() == Some(true);
            let k_laid_out = q_laid_out && k.contiguity() == Some(true);
            let laid_out = k_laid_out && v.contiguity() == Some(true);
            let q_ranked = laid_out && q.dims.len() == 3;
            let ranked = q_ranked && k.dims.len() == 3;
            let rowed = ranked && v.dims == k.dims && q.dims[0] == q_total && k.dims[0]
                == kv_total;
            let shaped = rowed && q.dims[1] == request.num_qo_heads && k.dims[1]
                == request.num_kv_heads && q.dims[2] == request.head_dim && k.dims[2]
                == request.head_dim;
            let wide = request.head_dim == 64 || request.head_dim == 128 || request.head_dim
                == 256;
            let headed = shaped && wide && request.num_kv_heads > 0 && request.num_qo_heads as int
                % request.num_kv_heads as int == 0;
            let grouped = headed && (group == 1 || group == 2 || group == 3 || group == 4 || group
                == 8 || group == 16 || group == 32 || group == 64);
            let batched = grouped && q_host.len() == kv_host.len();
            let scaled = batched && 0 < request.sm_scale_bits < 0x7f80_0000;
            let placed = scaled && q.location is Cuda && k.location == q.location && v.location
                == q.location;
            let q_lengthed = placed && q_device.dims == seq![q_host.len() as usize]
                && q_device.dtype is U32 && q_device.contiguous() && q_device.location
                == q.location;
            let lengthed = q_lengthed && kv_device.dims == seq![kv_host.len() as usize]
                && kv_device.dtype is U32 && kv_device.contiguous() && kv_device.location
                == q.location;
            let q_counted = lengthed && q_total <= i32::MAX;
            let kv_counted = q_counted && kv_total <= i32::MAX;
            let qo_counted = kv_counted && request.num_qo_heads <= i32::MAX;
            match request.fault() {
                None => qo_counted && request.num_kv_heads <= i32::MAX,
                Some(RaggedError::NotBf16) => !halves,
                Some(RaggedError::ScalesNotAccepted) => halves && !plain,
                Some(RaggedError::DTypes) => plain && !typed,
                Some(RaggedError::ExtentsOverflow) => {
                    ||| typed && q.contiguity() is None
                    ||| q_laid_out && k.contiguity() is None
                    ||| k_laid_out && v.contiguity() is None
                },
                Some(RaggedError::NotContiguous) => {
                    ||| typed && q.contiguity() == Some(false)
                    ||| q_laid_out && k.contiguity() == Some(false)
                    ||| k_laid_out && v.contiguity() == Some(false)
                },
                Some(RaggedError::Rank { side, error }) => {
                    &&& error.expected == 3
                    &&& side is Query ==> laid_out && !q_ranked && error.got
                        == q.dims.len() as usize
                    &&& side is Kv ==> q_ranked && !ranked && error.got == k.dims.len() as usize
                },
                Some(RaggedError::Rows) => ranked && !rowed,
                Some(RaggedError::Shapes) => rowed && !shaped,
                Some(RaggedError::HeadConfiguration) => shaped && !headed,
                Some(RaggedError::GroupSize) => headed && !grouped,
                Some(RaggedError::BatchSizes) => grouped && !batched,
                Some(RaggedError::SmScale) => batched && !scaled,
                Some(RaggedError::NotSameCudaDevice) => scaled && !placed,
                Some(RaggedError::DeviceLengths { side }) => {
                    &&& side is Query ==> placed && !q_lengthed
                    &&& side is Kv ==> q_lengthed && !lengthed
                },
                Some(RaggedError::ExceedsI32 { count }) => match count {
                    Count::QueryRows => lengthed && !q_counted,
                    Count::KvRows => q_counted && !kv_counted,
                    Count::QoHeads => kv_counted && !qo_counted,
                    Count::KvHeads => qo_counted && request.num_kv_heads > i32::MAX,
                },
                _ => false,
            }
        }),
{
}

/// A launch is refused for a rule that it breaks while it keeps all rules before that one, and
/// for no other reason.
pub proof fn law_a_refused_launch_breaks_the_rule_it_is_refused_for(
    sm_version: Option<u32>,
    q: StoredView,
    key: StoredView,
    value: StoredView,
    q_lengths: StoredView,
    kv_lengths: StoredView,
)
    requires
        q.storage is Cuda,
    ensures
        ({
            let version: u32 = if sm_version is Some {
                sm_version->Some_0
            } else {
                0
            };
            let able = version >= 90;
            let q_type = q.storage->Cuda_0.dtype;
            let q_half = able && (q_type is BF16 || q_type is F16);
            let k_half = key.tensor.dtype is BF16 || key.tensor.dtype is F16;
            let k_bound = q_half && key.storage is Cuda && k_half && key.storage->Cuda_0.dtype
                == key.tensor.dtype;
            let v_half = value.tensor.dtype is BF16 || value.tensor.dtype is F16;
            let v_bound = k_bound && value.storage is Cuda && v_half && value.storage->Cuda_0.dtype
                == value.tensor.dtype;
            let q_lengths_bound = v_bound && q_lengths.storage is Cuda
                && q_lengths.storage->Cuda_0.dtype is U32;
            let bound = q_lengths_bound && kv_lengths.storage is Cuda
                && kv_lengths.storage->Cuda_0.dtype is U32;
            match launch_fault(sm_version, q, key, value, q_lengths, kv_lengths) {
                None => bound && q.tensor.countable(),
                Some(RaggedError::ComputeCapability { sm }) => !able && sm == version,
                Some(RaggedError::UnsupportedStorage) => {
                    ||| able && !q_half
                    ||| q_half && key.storage is Cuda && !k_half
                    ||| k_bound && value.storage is Cuda && !v_half
                },
                Some(RaggedError::TensorNotCuda) => {
                    ||| q_half && !(key.storage is Cuda)
                    ||| k_bound && !(value.storage is Cuda)
                },
                Some(RaggedError::LengthsNotCuda) => {
                    ||| v_bound && !(q_lengths.storage is Cuda)
                    ||| q_lengths_bound && !(kv_lengths.storage is Cuda)
                },
                Some(RaggedError::SliceDType { expected, got }) => {
                    ||| q_half && key.storage is Cuda && k_half && !k_bound && expected
                        == key.tensor.dtype && got == key.storage->Cuda_0.dtype
                    ||| k_bound && value.storage is Cuda && v_half && !v_bound && expected
                        == value.tensor.dtype && got == value.storage->Cuda_0.dtype
                    ||| v_bound && q_lengths.storage is Cuda && !q_lengths_bound && expected is U32
                        && got == q_lengths.storage->Cuda_0.dtype
                    ||| q_lengths_bound && kv_lengths.storage is Cuda && !bound && expected is U32
                        && got == kv_lengths.storage->Cuda_0.dtype
                },
                Some(RaggedError::ExtentsOverflow) => bound && !q.tensor.countable(),
                _ => false,
            }
        }),
{
}

/// A half-precision address is refused exactly where the requested type is not a
/// half-precision one or the memory is of another type; an address of lengths exactly where
/// the memory is not `U32` on a CUDA device.
pub proof fn law_pointers_are_refused_for_what_their_memory_holds(
    slice: CudaSlice,
    dtype: DType,
    stored: StoredView,
)
    ensures
        slice_fault(slice, dtype) is None <==> (dtype is BF16 || dtype is F16) && slice.dtype
            == dtype,
        slice_fault(slice, dtype) matches Some(error) ==> error == (if dtype is BF16
            || dtype is F16 {
            RaggedError::SliceDType { expected: dtype, got: slice.dtype }
        } else {
            RaggedError::UnsupportedStorage
        }),
        !(stored.storage is Cuda) ==> tensor_fault(stored) == Some(RaggedError::TensorNotCuda)
            && u32_fault(stored) == Some(RaggedError::LengthsNotCuda),
        stored.storage is Cuda ==> tensor_fault(stored) == slice_fault(
            stored.storage->Cuda_0,
            stored.tensor.dtype,
        ),
        stored.storage is Cuda ==> (u32_fault(stored) is None
            <==> stored.storage->Cuda_0.dtype is U32),
        stored.storage is Cuda && u32_fault(stored) is Some ==> u32_fault(stored) == Some(
            RaggedError::SliceDType { expected: DType::U32, got: stored.storage->Cuda_0.dtype },
        ),
{
}

/// A launch carries its prefill unchanged, the code of its mask and, for each operand in
/// device memory, the address at which that operand's own view starts.
pub proof fn law_a_launch_points_at_its_own_operands(
    sm_version: Option<u32>,
    launch: RaggedLaunch,
    prefill: CheckedRaggedPrefill,
    q: StoredView,
    key: StoredView,
    value: StoredView,
    q_lengths: StoredView,
    kv_lengths: StoredView,
)
    requires
        q.storage is Cuda,
        launch_fault(sm_version, q, key, value, q_lengths, kv_lengths) is None,
        launches(launch, prefill, q, key, value, q_lengths, kv_lengths),
    ensures
        launch.q == q.storage->Cuda_0.base + q.tensor.start_offset * 2,
        launch.k == key.storage->Cuda_0.base + key.tensor.start_offset * 2,
        launch.v == value.storage->Cuda_0.base + value.tensor.start_offset * 2,
        launch.q_lengths == q_lengths.storage->Cuda_0.base + q_lengths.tensor.start_offset * 4,
        launch.kv_lengths == kv_lengths.storage->Cuda_0.base + kv_lengths.tensor.start_offset * 4,
        launch.prefill == prefill,
        launch.mask == 0 <==> prefill.mask is NonCausal,
        launch.mask == 1 <==> prefill.mask is Causal,
        launch.data_type == 1 <==> q.storage->Cuda_0.dtype is BF16,
        launch.data_type == 0 <==> q.storage->Cuda_0.dtype is F16,
        launch.output_elements == crate::tensor::product(q.tensor.dims),
{
}

} // verus!
