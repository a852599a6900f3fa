//! Planning fused Q/K RMSNorm and rotary-position preprocessing of packed QKV rows.
//!
//! [`ValidatedPositions`] certifies host values once and keeps their uploaded tensor.
//! The kernel can therefore read positions without a device-side validation in the
//! inference hot path.

use crate::arith::{checked_product, ProductOverflow, Quantity};
use crate::float_bits::is_finite_and_positive;
use crate::tensor::{
    device_identity, device_location, lemma_one_axis_fits, lemma_two_axes_fit, order_told,
    same_device, tensor_identity, tensor_view, upload_i64, CudaSlice, DType, Location, RankError,
    Storage, StoredTensor, StoredView, TensorDesc, TensorView,
};
use vstd::prelude::*;

verus! {

/// The width of one attention head.
pub const HEAD_DIM: usize = 128;

/// The width of one row of a rotary table.
pub const HALF_DIM: usize = 64;

/// What is wrong with positions on the host.
#[derive(Clone, Copy, Debug, PartialEq, Eq, Structural)]
pub enum PositionsFault {
    Empty,
    ZeroBound,
    BoundExceedsI64 { bound: usize },
    OutOfRange { index: usize, bound: usize, position: i64 },
}

/// Why positions get no certificate.
#[derive(Debug)]
pub enum PositionsError {
    Fault(PositionsFault),
    /// The device did not take them.
    Upload(candle_core::Error),
}

/// The position is a row of a table with `bound` rows.
pub open spec fn in_table(position: i64, bound: usize) -> bool {
    0 <= position < bound
}

/// There is a position, the bound is a positive `i64`, and all positions are below it.
pub open spec fn positions_valid(positions: Seq<i64>, bound: usize) -> bool {
    &&& positions.len() > 0
    &&& 0 < bound <= i64::MAX
    &&& forall|i: int| 0 <= i < positions.len() ==> in_table(#[trigger] positions[i], bound)
}

/// The fault is the first one that the positions have.
pub open spec fn has_fault(positions: Seq<i64>, bound: usize, fault: PositionsFault) -> bool {
    match fault {
        PositionsFault::Empty => positions.len() == 0,
        PositionsFault::ZeroBound => positions.len() > 0 && bound == 0,
        PositionsFault::BoundExceedsI64 { bound: reported } => positions.len() > 0 && bound
            > i64::MAX && reported == bound,
        PositionsFault::OutOfRange { index, bound: reported, position } => {
            &&& 0 < bound <= i64::MAX
            &&& reported == bound
            &&& index < positions.len()
            &&& position == positions[index as int]
            &&& !in_table(position, bound)
            &&& forall|i: int| 0 <= i < index ==> in_table(#[trigger] positions[i], bound)
        },
    }
}

/// Checks positions on the host against the row count of a rotary table.
pub fn validate_positions(positions: &[i64], max_position: usize) -> (result: Result<
    (),
    PositionsFault,
>)
    ensures
        match result {
            Ok(()) => positions_valid(positions@, max_position),
            Err(fault) => !positions_valid(positions@, max_position) && has_fault(
                positions@,
                max_position,
                fault,
            ),
        },
{
    if positions.len() == 0 {
        return Err(PositionsFault::Empty);
    }
    if max_position == 0 {
        return Err(PositionsFault::ZeroBound);
    }
    if max_position as u64 > i64::MAX as u64 {
        return Err(PositionsFault::BoundExceedsI64 { bound: max_position });
    }
    let bound: i64 = max_position as i64;
    let mut index: usize = 0;
    while index < positions.len()
        invariant
            index <= positions@.len(),
            0 < max_position <= i64::MAX,
            bound == max_position,
            forall|i: int| 0 <= i < index ==> in_table(#[trigger] positions@[i], max_position),
        decreases positions@.len() - index,
    {
        let position: i64 = positions[index];
        if position < 0 || position >= bound {
            return Err(PositionsFault::OutOfRange { index, bound: max_position, position });
        }
        index = index + 1;
    }
    Ok(())
}

/// Position indices that were validated against the row count of a rotary table and
/// uploaded once.
pub struct ValidatedPositions {
    tensor: candle_core::Tensor,
    len: usize,
    max_position: usize,
}

/// The mathematical content of [`ValidatedPositions`].
#[verifier::ext_equal]
pub struct PositionsView {
    pub values: Seq<int>,
    pub max_position: usize,
    /// The identity of the device that they were uploaded to.
    pub device: int,
    /// The location of that device.
    pub location: Location,
}

/// What a certificate for these positions on a device says.
pub open spec fn certified(
    positions: Seq<i64>,
    max_position: usize,
    device: candle_core::Device,
) -> PositionsView {
    PositionsView {
        values: positions.map_values(|position: i64| position as int),
        max_position,
        device: device_identity(device),
        location: device_location(device),
    }
}

impl View for ValidatedPositions {
    type V = PositionsView;

    closed spec fn view(&self) -> PositionsView {
        PositionsView {
            values: crate::tensor::tensor_values(self.tensor),
            max_position: self.max_position,
            device: tensor_identity(self.tensor),
            location: tensor_view(self.tensor).location,
        }
    }
}

impl Clone for ValidatedPositions {
    fn clone(&self) -> (copy: ValidatedPositions)
        ensures
            copy@ == self@,
    {
        proof {
            use_type_invariant(self);
        }
        ValidatedPositions {
            tensor: self.tensor.clone(),
            len: self.len,
            max_position: self.max_position,
        }
    }
}

impl PositionsView {
    /// There is a position, and each is a row of a table with `max_position` rows.
    pub open spec fn wf(self) -> bool {
        &&& 0 < self.values.len() <= usize::MAX
        &&& forall|i: int|
            0 <= i < self.values.len() ==> 0 <= #[trigger] self.values[i] < self.max_position
    }
}

impl ValidatedPositions {
    /// The uploaded tensor holds the certified values as contiguous `I64`.
    #[verifier::type_invariant]
    pub closed spec fn wf(&self) -> bool {
        let view = tensor_view(self.tensor);
        &&& self@.wf()
        &&& self.len == self@.values.len()
        &&& view.dtype == DType::I64
        &&& view.dims == seq![self.len]
        &&& view.contiguous()
    }

    /// Validates host positions and uploads them once to the requested device.
    ///
    /// Valid positions are refused only where the device does not take them. The host takes
    /// them all.
    pub fn new(positions: &[i64], max_position: usize, device: &candle_core::Device) -> (result:
        Result<ValidatedPositions, PositionsError>)
        ensures
            match result {
                Ok(certificate) => {
                    &&& positions_valid(positions@, max_position)
                    &&& certificate@ == certified(positions@, max_position, *device)
                    &&& certificate@.wf()
                },
                Err(PositionsError::Upload(_)) => positions_valid(positions@, max_position) && !(
                device_location(*device) is Cpu),
                Err(PositionsError::Fault(fault)) => has_fault(positions@, max_position, fault),
            },
    {
        match validate_positions(positions, max_position) {
            Ok(()) => ValidatedPositions::accept(
                positions,
                max_position,
                upload_i64(positions, device),
            ),
            Err(fault) => Err(PositionsError::Fault(fault)),
        }
    }

    /// The certificate for valid positions that were uploaded, or the refusal of the
    /// device.
    fn accept(
        positions: &[i64],
        max_position: usize,
        uploaded: Result<candle_core::Tensor, candle_core::Error>,
    ) -> (result: Result<ValidatedPositions, PositionsError>)
        requires
            positions_valid(positions@, max_position),
            uploaded matches Ok(tensor) ==> {
                &&& crate::tensor::tensor_values(tensor) == positions@.map_values(
                    |position: i64| position as int,
                )
                &&& tensor_view(tensor).dtype == DType::I64
                &&& tensor_view(tensor).dims == seq![positions@.len() as usize]
                &&& tensor_view(tensor).stride == seq![1usize]
            },
        ensures
            match uploaded {
                Ok(tensor) => {
                    &&& result matches Ok(certificate)
                    &&& certificate@ == (PositionsView {
                        values: positions@.map_values(|position: i64| position as int),
                        max_position,
                        device: tensor_identity(tensor),
                        location: tensor_view(tensor).location,
                    })
                    &&& certificate@.wf()
                },
                Err(error) => result == Err::<ValidatedPositions, _>(
                    PositionsError::Upload(error),
                ),
            },
    {
        match uploaded {
            Ok(tensor) => {
                proof {
                    let view = tensor_view(tensor);
                    assert(view.dims.skip(1) =~= Seq::<usize>::empty());
                    assert(!crate::tensor::order_broken_at(view.dims, view.stride, 0));
                    let values = crate::tensor::tensor_values(tensor);
                    assert forall|i: int| 0 <= i < values.len() implies 0 <= #[trigger] values[i]
                        < max_position by {
                        assert(in_table(positions@[i], max_position));
                    }
                }
                Ok(ValidatedPositions { tensor, len: positions.len(), max_position })
            },
            Err(error) => Err(PositionsError::Upload(error)),
        }
    }

    /// The number of positions.
    pub fn len(&self) -> (len: usize)
        ensures
            len == self@.values.len(),
            self@.wf(),
    {
        proof {
            use_type_invariant(self);
        }
        self.len
    }

    /// The row count that all positions are below.
    pub fn max_position(&self) -> (max_position: usize)
        ensures
            max_position == self@.max_position,
    {
        self.max_position
    }

    /// The uploaded positions: contiguous `I64` values.
    ///
    /// The certificate speaks of the values that were uploaded. Candle can write through a
    /// shared handle, so whoever holds this one must not.
    pub fn tensor(&self) -> (tensor: &candle_core::Tensor)
        ensures
            crate::tensor::tensor_values(*tensor) == self@.values,
            tensor_view(*tensor).dtype == DType::I64,
            tensor_view(*tensor).dims == seq![self@.values.len() as usize],
            tensor_view(*tensor).contiguous(),
            tensor_identity(*tensor) == self@.device,
            tensor_view(*tensor).location == self@.location,
    {
        proof {
            use_type_invariant(self);
        }
        &self.tensor
    }
}

/// A tensor that the kernel reads.
#[derive(Clone, Copy, Debug, PartialEq, Eq, Structural)]
pub enum Operand {
    Qkv,
    QWeight,
    KWeight,
    Cos,
    Sin,
    Positions,
}

/// A size that the kernel takes as a `u32`.
#[derive(Clone, Copy, Debug, PartialEq, Eq, Structural)]
pub enum Extent {
    Tokens,
    QHeads,
    KvHeads,
    RowWidth,
    TableRows,
}

/// Why the fused operation is refused.
#[derive(Clone, Copy, Debug, PartialEq, Eq, Structural)]
pub enum QkError {
    Epsilon { eps_bits: u32 },
    HeadCounts,
    Rank { operand: Operand, error: RankError },
    NoTokens,
    Product(ProductOverflow),
    HeadCountOverflow,
    QkvShape { tokens: usize, expected_width: usize, width: usize },
    QkvDType { dtype: DType },
    WeightContract { operand: Operand, weight_dtype: DType },
    TableShapes,
    TableDTypes { cos: DType, sin: DType },
    Certificate { len: usize, bound: usize, certified_tokens: usize, table_rows: usize },
    NotContiguous { operand: Operand },
    DifferentDevice { operand: Operand },
    ExceedsU32 { extent: Extent },
    CudaFeatureRequired,
    NotCuda,
    NotCudaStorage { operand: Operand },
    StorageDType { operand: Operand },
    LaunchFailed { status: i32 },
}

/// Candle's answers to whether each operand lives on the device identity of the QKV
/// tensor.
#[derive(Clone, Copy, Debug, PartialEq, Eq, Structural)]
pub struct SameDevice {
    pub q_weight: bool,
    pub k_weight: bool,
    pub cos: bool,
    pub sin: bool,
    pub positions: bool,
}

/// The sizes of an accepted request.
#[derive(Clone, Copy, Debug, PartialEq, Eq, Structural)]
pub struct QkLayout {
    pub tokens: usize,
    pub q_heads: usize,
    pub kv_heads: usize,
    pub row_width: usize,
    pub table_rows: usize,
    pub q_elements: usize,
    pub k_elements: usize,
}

/// Everything that decides whether the fused operation is accepted.
#[verifier::ext_equal]
pub struct QkRequest {
    pub qkv: TensorView,
    pub q_weight: TensorView,
    pub k_weight: TensorView,
    pub cos: TensorView,
    pub sin: TensorView,
    pub positions: PositionsView,
    pub same_device: SameDevice,
    pub eps_bits: u32,
    pub q_heads: usize,
    pub kv_heads: usize,
}

/// The first of two faults.
pub open spec fn earlier(first: Option<QkError>, second: Option<QkError>) -> Option<QkError> {
    if first is Some {
        first
    } else {
        second
    }
}

/// The width of a QKV row: the query heads, then the key heads, then the value heads.
pub open spec fn packed_width(q_heads: usize, kv_heads: usize) -> int {
    (q_heads + 2 * kv_heads) * HEAD_DIM
}

impl QkRequest {
    /// The first broken rule on the parameters and the shape of the QKV rows.
    pub open spec fn row_fault(self) -> Option<QkError> {
        if !crate::float_bits::finite_and_positive(self.eps_bits) {
            Some(QkError::Epsilon { eps_bits: self.eps_bits })
        } else if self.q_heads == 0 || self.kv_heads == 0 {
            Some(QkError::HeadCounts)
        } else if self.qkv.dims.len() != 2 {
            Some(
                QkError::Rank {
                    operand: Operand::Qkv,
                    error: RankError { expected: 2, got: self.qkv.dims.len() as usize },
                },
            )
        } else if self.qkv.dims[0] == 0 {
            Some(QkError::NoTokens)
        } else if 2 * self.kv_heads > usize::MAX {
            Some(QkError::Product(ProductOverflow { quantity: Quantity::QkvKvHeadCount }))
        } else if self.q_heads + 2 * self.kv_heads > usize::MAX {
            Some(QkError::HeadCountOverflow)
        } else if packed_width(self.q_heads, self.kv_heads) > usize::MAX {
            Some(QkError::Product(ProductOverflow { quantity: Quantity::QkvRowWidth }))
        } else if self.qkv.dims[1] != packed_width(self.q_heads, self.kv_heads) {
            Some(
                QkError::QkvShape {
                    tokens: self.qkv.dims[0],
                    expected_width: packed_width(self.q_heads, self.kv_heads) as usize,
                    width: self.qkv.dims[1],
                },
            )
        } else if self.qkv.dims[0] * self.qkv.dims[1] > usize::MAX {
            Some(QkError::Product(ProductOverflow { quantity: Quantity::QkvElementCount }))
        } else if self.qkv.dtype != DType::BF16 {
            Some(QkError::QkvDType { dtype: self.qkv.dtype })
        } else {
            None
        }
    }

    /// The first broken rule on the weights and the rotary tables.
    pub open spec fn table_fault(self) -> Option<QkError> {
        if self.q_weight.dtype != DType::F32 || self.q_weight.dims != seq![HEAD_DIM] {
            Some(
                QkError::WeightContract {
                    operand: Operand::QWeight,
                    weight_dtype: self.q_weight.dtype,
                },
            )
        } else if self.k_weight.dtype != DType::F32 || self.k_weight.dims != seq![HEAD_DIM] {
            Some(
                QkError::WeightContract {
                    operand: Operand::KWeight,
                    weight_dtype: self.k_weight.dtype,
                },
            )
        } else if self.cos.dims.len() != 2 {
            Some(
                QkError::Rank {
                    operand: Operand::Cos,
                    error: RankError { expected: 2, got: self.cos.dims.len() as usize },
                },
            )
        } else if self.cos.dims[0] == 0 || self.cos.dims[1] != HALF_DIM || self.sin.dims
            != self.cos.dims {
            Some(QkError::TableShapes)
        } else if self.cos.dtype != DType::F32 || self.sin.dtype != DType::F32 {
            Some(QkError::TableDTypes { cos: self.cos.dtype, sin: self.sin.dtype })
        } else if self.cos.dims[0] * HALF_DIM > usize::MAX {
            Some(QkError::Product(ProductOverflow { quantity: Quantity::RopeTableElementCount }))
        } else {
            None
        }
    }

    /// The certificate covers every token and the whole table.
    pub open spec fn certificate_fault(self) -> Option<QkError> {
        if self.positions.values.len() != self.qkv.dims[0] || self.positions.max_position
            != self.cos.dims[0] {
            Some(
                QkError::Certificate {
                    len: self.positions.values.len() as usize,
                    bound: self.positions.max_position,
                    certified_tokens: self.qkv.dims[0],
                    table_rows: self.cos.dims[0],
                },
            )
        } else {
            None
        }
    }

    /// The first operand that is not contiguous or lives on another device.
    pub open spec fn placement_fault(self) -> Option<QkError> {
        earlier(
            operand_fault(Operand::Qkv, self.qkv, true),
            earlier(
                operand_fault(Operand::QWeight, self.q_weight, self.same_device.q_weight),
                earlier(
                    operand_fault(Operand::KWeight, self.k_weight, self.same_device.k_weight),
                    earlier(
                        operand_fault(Operand::Cos, self.cos, self.same_device.cos),
                        earlier(
                            operand_fault(Operand::Sin, self.sin, self.same_device.sin),
                            device_fault(Operand::Positions, self.same_device.positions),
                        ),
                    ),
                ),
            ),
        )
    }

    /// The first size that is not a `u32`.
    pub open spec fn extent_fault(self) -> Option<QkError> {
        if self.qkv.dims[0] > u32::MAX {
            Some(QkError::ExceedsU32 { extent: Extent::Tokens })
        } else if self.q_heads > u32::MAX {
            Some(QkError::ExceedsU32 { extent: Extent::QHeads })
        } else if self.kv_heads > u32::MAX {
            Some(QkError::ExceedsU32 { extent: Extent::KvHeads })
        } else if self.qkv.dims[1] > u32::MAX {
            Some(QkError::ExceedsU32 { extent: Extent::RowWidth })
        } else if self.cos.dims[0] > u32::MAX {
            Some(QkError::ExceedsU32 { extent: Extent::TableRows })
        } else {
            None
        }
    }

    /// The first broken rule.
    pub open spec fn fault(self) -> Option<QkError> {
        earlier(
            self.row_fault(),
            earlier(
                self.table_fault(),
                earlier(
                    self.certificate_fault(),
                    earlier(self.placement_fault(), self.extent_fault()),
                ),
            ),
        )
    }

    /// The sizes of a request that breaks no rule.
    pub open spec fn layout(self) -> QkLayout {
        QkLayout {
            tokens: self.qkv.dims[0],
            q_heads: self.q_heads,
            kv_heads: self.kv_heads,
            row_width: self.qkv.dims[1],
            table_rows: self.cos.dims[0],
            q_elements: (self.qkv.dims[0] * self.q_heads * HEAD_DIM) as usize,
            k_elements: (self.qkv.dims[0] * self.kv_heads * HEAD_DIM) as usize,
        }
    }
}

/// An operand that lives on another device identity than the QKV tensor.
pub open spec fn device_fault(operand: Operand, same_device: bool) -> Option<QkError> {
    if !same_device {
        Some(QkError::DifferentDevice { operand })
    } else {
        None
    }
}

/// An operand that is not contiguous, or lives on another device.
pub open spec fn operand_fault(
    operand: Operand,
    view: TensorView,
    same_device: bool,
) -> Option<QkError> {
    if !view.contiguous() {
        Some(QkError::NotContiguous { operand })
    } else {
        device_fault(operand, same_device)
    }
}

fn check_device(operand: Operand, same_device: bool) -> (result: Result<(), QkError>)
    ensures
        match result {
            Ok(()) => device_fault(operand, same_device) is None,
            Err(error) => device_fault(operand, same_device) == Some(error),
        },
{
    if !same_device {
        return Err(QkError::DifferentDevice { operand });
    }
    Ok(())
}

fn check_operand(operand: Operand, desc: &TensorDesc, same_device: bool) -> (result: Result<
    (),
    QkError,
>)
    requires
        order_told(desc@.dims, desc@.stride),
    ensures
        match result {
            Ok(()) => operand_fault(operand, desc@, same_device) is None,
            Err(error) => operand_fault(operand, desc@, same_device) == Some(error),
        },
{
    if !desc.is_contiguous().unwrap() {
        return Err(QkError::NotContiguous { operand });
    }
    check_device(operand, same_device)
}

fn check_extent(extent: Extent, value: usize) -> (result: Result<(), QkError>)
    ensures
        result == (if value > u32::MAX {
            Err(QkError::ExceedsU32 { extent })
        } else {
            Ok::<(), QkError>(())
        }),
{
    if value as u64 > u32::MAX as u64 {
        return Err(QkError::ExceedsU32 { extent });
    }
    Ok(())
}

/// Whether the tensor has exactly these extents.
fn has_dims1(desc: &TensorDesc, extent: usize) -> (yes: bool)
    ensures
        yes == (desc@.dims == seq![extent]),
{
    let yes = desc.dims().len() == 1 && desc.dims()[0] == extent;
    assert(yes ==> desc@.dims =~= seq![extent]);
    yes
}

/// Whether the tensor has exactly these extents.
fn has_dims2(desc: &TensorDesc, rows: usize, columns: usize) -> (yes: bool)
    ensures
        yes == (desc@.dims == seq![rows, columns]),
{
    let yes = desc.dims().len() == 2 && desc.dims()[0] == rows && desc.dims()[1] == columns;
    assert(yes ==> desc@.dims =~= seq![rows, columns]);
    yes
}

/// The heads of one kind fit beside the others in the rows of the QKV tensor.
proof fn lemma_outputs_fit(tokens: nat, q_heads: nat, kv_heads: nat, elements: nat)
    requires
        elements == tokens * ((q_heads + 2 * kv_heads) * HEAD_DIM),
    ensures
        tokens * q_heads * HEAD_DIM + 2 * (tokens * kv_heads * HEAD_DIM) == elements,
        tokens * q_heads <= tokens * q_heads * HEAD_DIM,
        tokens * kv_heads <= tokens * kv_heads * HEAD_DIM,
{
    assert(tokens * ((q_heads + 2 * kv_heads) * 128) == tokens * q_heads * 128 + 2 * (tokens
        * kv_heads * 128)) by (nonlinear_arith);
    assert(tokens * q_heads >= 0 && tokens * kv_heads >= 0) by (nonlinear_arith);
}

/// Checks every rule of the fused operation and returns its sizes.
///
/// `eps_bits` are the bits of the single-precision epsilon.
pub fn validate_contract(
    qkv: &TensorDesc,
    q_weight: &TensorDesc,
    k_weight: &TensorDesc,
    cos: &TensorDesc,
    sin: &TensorDesc,
    positions: &ValidatedPositions,
    same_device: SameDevice,
    eps_bits: u32,
    q_heads: usize,
    kv_heads: usize,
) -> (result: Result<QkLayout, QkError>)
    ensures
        ({
            let request = QkRequest {
                qkv: qkv@,
                q_weight: q_weight@,
                k_weight: k_weight@,
                cos: cos@,
                sin: sin@,
                positions: positions@,
                same_device,
                eps_bits,
                q_heads,
                kv_heads,
            };
            match result {
                Ok(layout) => request.fault() is None && layout == request.layout(),
                Err(error) => request.fault() == Some(error),
            }
        }),
{
    let ghost request = QkRequest {
        qkv: qkv@,
        q_weight: q_weight@,
        k_weight: k_weight@,
        cos: cos@,
        sin: sin@,
        positions: positions@,
        same_device,
        eps_bits,
        q_heads,
        kv_heads,
    };
    if !is_finite_and_positive(eps_bits) {
        return Err(QkError::Epsilon { eps_bits });
    }
    if q_heads == 0 || kv_heads == 0 {
        return Err(QkError::HeadCounts);
    }
    let (tokens, row_width): (usize, usize) = match qkv.dims2() {
        Ok(dims) => dims,
        Err(error) => {
            return Err(QkError::Rank { operand: Operand::Qkv, error });
        },
    };
    if tokens == 0 {
        return Err(QkError::NoTokens);
    }
    let twice_kv: usize = match checked_product(kv_heads, 2, Quantity::QkvKvHeadCount) {
        Ok(count) => count,
        Err(error) => {
            return Err(QkError::Product(error));
        },
    };
    let packed_heads: usize = match q_heads.checked_add(twice_kv) {
        Some(count) => count,
        None => {
            return Err(QkError::HeadCountOverflow);
        },
    };
    let expected_width: usize = match checked_product(
        packed_heads,
        HEAD_DIM,
        Quantity::QkvRowWidth,
    ) {
        Ok(width) => width,
        Err(error) => {
            return Err(QkError::Product(error));
        },
    };
    if row_width != expected_width {
        return Err(QkError::QkvShape { tokens, expected_width, width: row_width });
    }
    match checked_product(tokens, row_width, Quantity::QkvElementCount) {
        Ok(_) => {},
        Err(error) => {
            return Err(QkError::Product(error));
        },
    }
    if qkv.dtype() != DType::BF16 {
        return Err(QkError::QkvDType { dtype: qkv.dtype() });
    }
    assert(request.row_fault() is None);
    if q_weight.dtype() != DType::F32 || !has_dims1(q_weight, HEAD_DIM) {
        return Err(
            QkError::WeightContract { operand: Operand::QWeight, weight_dtype: q_weight.dtype() },
        );
    }
    if k_weight.dtype() != DType::F32 || !has_dims1(k_weight, HEAD_DIM) {
        return Err(
            QkError::WeightContract { operand: Operand::KWeight, weight_dtype: k_weight.dtype() },
        );
    }
    let (table_rows, table_width): (usize, usize) = match cos.dims2() {
        Ok(dims) => dims,
        Err(error) => {
            return Err(QkError::Rank { operand: Operand::Cos, error });
        },
    };
    if table_rows == 0 || table_width != HALF_DIM || !has_dims2(sin, table_rows, HALF_DIM) {
        return Err(QkError::TableShapes);
    }
    if cos.dtype() != DType::F32 || sin.dtype() != DType::F32 {
        return Err(QkError::TableDTypes { cos: cos.dtype(), sin: sin.dtype() });
    }
    match checked_product(table_rows, HALF_DIM, Quantity::RopeTableElementCount) {
        Ok(_) => {},
        Err(error) => {
            return Err(QkError::Product(error));
        },
    }
    assert(request.table_fault() is None);
    if positions.len() != tokens || positions.max_position() != table_rows {
        return Err(
            QkError::Certificate {
                len: positions.len(),
                bound: positions.max_position(),
                certified_tokens: tokens,
                table_rows,
            },
        );
    }
    proof {
        lemma_two_axes_fit(qkv@.dims);
        lemma_one_axis_fits(q_weight@.dims);
        lemma_one_axis_fits(k_weight@.dims);
        lemma_two_axes_fit(cos@.dims);
        lemma_two_axes_fit(sin@.dims);
    }
    // All extents were found to multiply up, so each contiguity is told.
    check_operand(Operand::Qkv, qkv, true)?;
    check_operand(Operand::QWeight, q_weight, same_device.q_weight)?;
    check_operand(Operand::KWeight, k_weight, same_device.k_weight)?;
    check_operand(Operand::Cos, cos, same_device.cos)?;
    check_operand(Operand::Sin, sin, same_device.sin)?;
    check_device(Operand::Positions, same_device.positions)?;
    assert(request.placement_fault() is None);
    proof {
        lemma_outputs_fit(
            tokens as nat,
            q_heads as nat,
            kv_heads as nat,
            crate::tensor::product(qkv@.dims),
        );
    }
    // The query and key outputs take no more elements than the QKV tensor has.
    let q_elements: usize = tokens * q_heads * HEAD_DIM;
    let k_elements: usize = tokens * kv_heads * HEAD_DIM;
    check_extent(Extent::Tokens, tokens)?;
    check_extent(Extent::QHeads, q_heads)?;
    check_extent(Extent::KvHeads, kv_heads)?;
    check_extent(Extent::RowWidth, row_width)?;
    check_extent(Extent::TableRows, table_rows)?;
    Ok(QkLayout { tokens, q_heads, kv_heads, row_width, table_rows, q_elements, k_elements })
}

impl QkLayout {
    /// The kernel takes these sizes as `u32`.
    pub open spec fn fits_u32(self) -> bool {
        &&& self.tokens <= u32::MAX
        &&& self.q_heads <= u32::MAX
        &&& self.kv_heads <= u32::MAX
        &&& self.row_width <= u32::MAX
        &&& self.table_rows <= u32::MAX
    }

    /// The extents of the query output.
    pub fn q_shape(&self) -> (shape: (usize, usize, usize))
        ensures
            shape == (self.tokens, self.q_heads, HEAD_DIM),
    {
        (self.tokens, self.q_heads, HEAD_DIM)
    }

    /// The extents of the key output.
    pub fn k_shape(&self) -> (shape: (usize, usize, usize))
        ensures
            shape == (self.tokens, self.kv_heads, HEAD_DIM),
    {
        (self.tokens, self.kv_heads, HEAD_DIM)
    }
}

/// Decides whether the fused BF16-to-F32 conversion, per-head RMSNorm, non-interleaved
/// rotary embedding and BF16 output conversion may run, and with which sizes.
///
/// `cuda_feature` tells whether the kernels were built. Without them every request that
/// breaks no rule is refused for that.
pub fn qk_rmsnorm_rope(
    qkv: &TensorDesc,
    q_weight: &TensorDesc,
    k_weight: &TensorDesc,
    cos: &TensorDesc,
    sin: &TensorDesc,
    positions: &ValidatedPositions,
    same_device: SameDevice,
    eps_bits: u32,
    q_heads: usize,
    kv_heads: usize,
    cuda_feature: bool,
) -> (result: Result<QkLayout, QkError>)
    ensures
        ({
            let request = QkRequest {
                qkv: qkv@,
                q_weight: q_weight@,
                k_weight: k_weight@,
                cos: cos@,
                sin: sin@,
                positions: positions@,
                same_device,
                eps_bits,
                q_heads,
                kv_heads,
            };
            result == request.outcome(cuda_feature)
        }),
        result matches Ok(layout) ==> layout.fits_u32() && positions@.wf(),
{
    let layout = validate_contract(
        qkv,
        q_weight,
        k_weight,
        cos,
        sin,
        positions,
        same_device,
        eps_bits,
        q_heads,
        kv_heads,
    )?;
    proof {
        use_type_invariant(positions);
    }
    if !cuda_feature {
        return Err(QkError::CudaFeatureRequired);
    }
    match qkv.location() {
        Location::Cuda { gpu_id: _ } => Ok(layout),
        _ => Err(QkError::NotCuda),
    }
}

/// The operands and the positions are all on the host.
pub open spec fn all_on_host(
    qkv: candle_core::Tensor,
    q_weight: candle_core::Tensor,
    k_weight: candle_core::Tensor,
    cos: candle_core::Tensor,
    sin: candle_core::Tensor,
    positions: PositionsView,
) -> bool {
    &&& tensor_view(qkv).location is Cpu
    &&& tensor_view(q_weight).location is Cpu
    &&& tensor_view(k_weight).location is Cpu
    &&& tensor_view(cos).location is Cpu
    &&& tensor_view(sin).location is Cpu
    &&& positions.location is Cpu
}

impl SameDevice {
    /// Every operand shares the device identity of the packed rows.
    pub open spec fn everywhere(self) -> bool {
        self.q_weight && self.k_weight && self.cos && self.sin && self.positions
    }

    /// Which operands share the device identity of the packed rows.
    pub open spec fn spec_of(
        qkv: candle_core::Tensor,
        q_weight: candle_core::Tensor,
        k_weight: candle_core::Tensor,
        cos: candle_core::Tensor,
        sin: candle_core::Tensor,
        positions: PositionsView,
    ) -> SameDevice {
        let device = tensor_identity(qkv);
        SameDevice {
            q_weight: tensor_identity(q_weight) == device,
            k_weight: tensor_identity(k_weight) == device,
            cos: tensor_identity(cos) == device,
            sin: tensor_identity(sin) == device,
            positions: positions.device == device,
        }
    }

    /// Asks Candle which operands share the device identity of the packed rows.
    pub fn of(
        qkv: &candle_core::Tensor,
        q_weight: &candle_core::Tensor,
        k_weight: &candle_core::Tensor,
        cos: &candle_core::Tensor,
        sin: &candle_core::Tensor,
        positions: &ValidatedPositions,
    ) -> (same: SameDevice)
        ensures
            same == SameDevice::spec_of(*qkv, *q_weight, *k_weight, *cos, *sin, positions@),
            all_on_host(*qkv, *q_weight, *k_weight, *cos, *sin, positions@) ==> same.everywhere(),
    {
        SameDevice {
            q_weight: same_device(qkv, q_weight),
            k_weight: same_device(qkv, k_weight),
            cos: same_device(qkv, cos),
            sin: same_device(qkv, sin),
            positions: same_device(qkv, positions.tensor()),
        }
    }
}

/// What becomes of a request on Candle tensors.
pub open spec fn tensors_outcome(
    qkv: candle_core::Tensor,
    q_weight: candle_core::Tensor,
    k_weight: candle_core::Tensor,
    cos: candle_core::Tensor,
    sin: candle_core::Tensor,
    positions: PositionsView,
    eps_bits: u32,
    q_heads: usize,
    kv_heads: usize,
    cuda_feature: bool,
) -> Result<QkLayout, QkError> {
    let request = QkRequest {
        qkv: tensor_view(qkv),
        q_weight: tensor_view(q_weight),
        k_weight: tensor_view(k_weight),
        cos: tensor_view(cos),
        sin: tensor_view(sin),
        positions,
        same_device: SameDevice::spec_of(qkv, q_weight, k_weight, cos, sin, positions),
        eps_bits,
        q_heads,
        kv_heads,
    };
    request.outcome(cuda_feature)
}

/// Decides on a request whose operands are Candle tensors. On the
/// host they all share one device.
pub fn qk_rmsnorm_rope_tensors(
    qkv: &candle_core::Tensor,
    q_weight: &candle_core::Tensor,
    k_weight: &candle_core::Tensor,
    cos: &candle_core::Tensor,
    sin: &candle_core::Tensor,
    positions: &ValidatedPositions,
    eps_bits: u32,
    q_heads: usize,
    kv_heads: usize,
    cuda_feature: bool,
) -> (result: Result<QkLayout, QkError>)
    ensures
        result == tensors_outcome(
            *qkv,
            *q_weight,
            *k_weight,
            *cos,
            *sin,
            positions@,
            eps_bits,
            q_heads,
            kv_heads,
            cuda_feature,
        ),
        result matches Ok(layout) ==> layout.fits_u32() && positions@.wf(),
        all_on_host(*qkv, *q_weight, *k_weight, *cos, *sin, positions@) ==> SameDevice::spec_of(
            *qkv,
            *q_weight,
            *k_weight,
            *cos,
            *sin,
            positions@,
        ).everywhere(),
{
    let same = SameDevice::of(qkv, q_weight, k_weight, cos, sin, positions);
    qk_rmsnorm_rope(
        &TensorDesc::of(qkv),
        &TensorDesc::of(q_weight),
        &TensorDesc::of(k_weight),
        &TensorDesc::of(cos),
        &TensorDesc::of(sin),
        positions,
        same,
        eps_bits,
        q_heads,
        kv_heads,
        cuda_feature,
    )
}

impl QkRequest {
    /// What becomes of a request.
    pub open spec fn outcome(self, cuda_feature: bool) -> Result<QkLayout, QkError> {
        match self.fault() {
            Some(error) => Err(error),
            None => if !cuda_feature {
                Err(QkError::CudaFeatureRequired)
            } else if !(self.qkv.location is Cuda) {
                Err(QkError::NotCuda)
            } else {
                Ok(self.layout())
            },
        }
    }
}

/// What the kernel is called with, apart from its outputs and its stream.
#[derive(Clone, Copy, Debug, PartialEq, Eq, Structural)]
pub struct QkLaunch {
    pub qkv: u64,
    pub q_weight: u64,
    pub k_weight: u64,
    pub cos: u64,
    pub sin: u64,
    pub positions: u64,
    pub tokens: u32,
    pub q_heads: u32,
    pub kv_heads: u32,
    pub row_width: u32,
    pub table_rows: u32,
    pub eps_bits: u32,
}

/// The operand is kept in device memory of the given element type.
pub open spec fn stored_as(operand: StoredView, dtype: DType) -> bool {
    operand.storage matches Storage::Cuda(slice) && slice.dtype == dtype
}

/// The first broken rule on where the operands are kept: first all of them must be in
/// device memory, then each as its own element type.
pub open spec fn operands_fault(
    qkv: StoredView,
    q_weight: StoredView,
    k_weight: StoredView,
    cos: StoredView,
    sin: StoredView,
    positions: StoredView,
) -> Option<QkError> {
    if !(qkv.storage is Cuda) {
        Some(QkError::NotCudaStorage { operand: Operand::Qkv })
    } else if !(q_weight.storage is Cuda) {
        Some(QkError::NotCudaStorage { operand: Operand::QWeight })
    } else if !(k_weight.storage is Cuda) {
        Some(QkError::NotCudaStorage { operand: Operand::KWeight })
    } else if !(cos.storage is Cuda) {
        Some(QkError::NotCudaStorage { operand: Operand::Cos })
    } else if !(sin.storage is Cuda) {
        Some(QkError::NotCudaStorage { operand: Operand::Sin })
    } else if !(positions.storage is Cuda) {
        Some(QkError::NotCudaStorage { operand: Operand::Positions })
    } else if !stored_as(qkv, DType::BF16) {
        Some(QkError::StorageDType { operand: Operand::Qkv })
    } else if !stored_as(q_weight, DType::F32) {
        Some(QkError::StorageDType { operand: Operand::QWeight })
    } else if !stored_as(k_weight, DType::F32) {
        Some(QkError::StorageDType { operand: Operand::KWeight })
    } else if !stored_as(cos, DType::F32) {
        Some(QkError::StorageDType { operand: Operand::Cos })
    } else if !stored_as(sin, DType::F32) {
        Some(QkError::StorageDType { operand: Operand::Sin })
    } else if !stored_as(positions, DType::I64) {
        Some(QkError::StorageDType { operand: Operand::Positions })
    } else {
        None
    }
}

fn cuda_slice(operand: Operand, stored: &StoredTensor) -> (result: Result<CudaSlice, QkError>)
    ensures
        match result {
            Ok(slice) => stored@.storage == Storage::Cuda(slice),
            Err(error) => !(stored@.storage is Cuda) && error == (QkError::NotCudaStorage {
                operand,
            }),
        },
{
    match stored.storage {
        Storage::Cuda(slice) => Ok(slice),
        _ => Err(QkError::NotCudaStorage { operand }),
    }
}

fn check_elements(operand: Operand, slice: CudaSlice, dtype: DType) -> (result: Result<
    (),
    QkError,
>)
    ensures
        result == (if slice.dtype == dtype {
            Ok::<(), QkError>(())
        } else {
            Err(QkError::StorageDType { operand })
        }),
{
    if slice.dtype != dtype {
        return Err(QkError::StorageDType { operand });
    }
    Ok(())
}

/// The launch of a layout that is bound to the device addresses of its operands.
pub open spec fn launches(
    launch: QkLaunch,
    layout: QkLayout,
    eps_bits: u32,
    qkv: StoredView,
    q_weight: StoredView,
    k_weight: StoredView,
    cos: StoredView,
    sin: StoredView,
    positions: StoredView,
) -> bool {
    &&& launch.qkv == qkv.address()
    &&& launch.q_weight == q_weight.address()
    &&& launch.k_weight == k_weight.address()
    &&& launch.cos == cos.address()
    &&& launch.sin == sin.address()
    &&& launch.positions == positions.address()
    &&& launch.tokens == layout.tokens
    &&& launch.q_heads == layout.q_heads
    &&& launch.kv_heads == layout.kv_heads
    &&& launch.row_width == layout.row_width
    &&& launch.table_rows == layout.table_rows
    &&& launch.eps_bits == eps_bits
}

/// Binds an accepted request to the device addresses of its operands.
pub fn bind_operands(
    layout: QkLayout,
    eps_bits: u32,
    qkv: &StoredTensor,
    q_weight: &StoredTensor,
    k_weight: &StoredTensor,
    cos: &StoredTensor,
    sin: &StoredTensor,
    positions: &StoredTensor,
) -> (result: Result<QkLaunch, QkError>)
    requires
        operands_fault(qkv@, q_weight@, k_weight@, cos@, sin@, positions@) is None ==> {
            &&& layout.fits_u32()
            &&& qkv@.addressable()
            &&& q_weight@.addressable()
            &&& k_weight@.addressable()
            &&& cos@.addressable()
            &&& sin@.addressable()
            &&& positions@.addressable()
        },
    ensures
        match result {
            Ok(launch) => {
                &&& operands_fault(qkv@, q_weight@, k_weight@, cos@, sin@, positions@) is None
                &&& launches(
                    launch,
                    layout,
                    eps_bits,
                    qkv@,
                    q_weight@,
                    k_weight@,
                    cos@,
                    sin@,
                    positions@,
                )
            },
            Err(error) => operands_fault(qkv@, q_weight@, k_weight@, cos@, sin@, positions@)
                == Some(error),
        },
{
    let qkv_slice = cuda_slice(Operand::Qkv, qkv)?;
    let q_weight_slice = cuda_slice(Operand::QWeight, q_weight)?;
    let k_weight_slice = cuda_slice(Operand::KWeight, k_weight)?;
    let cos_slice = cuda_slice(Operand::Cos, cos)?;
    let sin_slice = cuda_slice(Operand::Sin, sin)?;
    let positions_slice = cuda_slice(Operand::Positions, positions)?;
    check_elements(Operand::Qkv, qkv_slice, DType::BF16)?;
    check_elements(Operand::QWeight, q_weight_slice, DType::F32)?;
    check_elements(Operand::KWeight, k_weight_slice, DType::F32)?;
    check_elements(Operand::Cos, cos_slice, DType::F32)?;
    check_elements(Operand::Sin, sin_slice, DType::F32)?;
    check_elements(Operand::Positions, positions_slice, DType::I64)?;
    Ok(
        QkLaunch {
            qkv: qkv.element_address(qkv_slice),
            q_weight: q_weight.element_address(q_weight_slice),
            k_weight: k_weight.element_address(k_weight_slice),
            cos: cos.element_address(cos_slice),
            sin: sin.element_address(sin_slice),
            positions: positions.element_address(positions_slice),
            tokens: layout.tokens as u32,
            q_heads: layout.q_heads as u32,
            kv_heads: layout.kv_heads as u32,
            row_width: layout.row_width as u32,
            table_rows: layout.table_rows as u32,
            eps_bits,
        },
    )
}

/// What the status of the kernel means: zero is success.
pub fn launch_outcome(status: i32) -> (result: Result<(), QkError>)
    ensures
        result == (if status == 0 {
            Ok::<(), QkError>(())
        } else {
            Err(QkError::LaunchFailed { status })
        }),
{
    if status != 0 {
        return Err(QkError::LaunchFailed { status });
    }
    Ok(())
}

/// Positions are valid, or they have a fault, and then only one; never both.
pub proof fn law_positions_have_one_verdict(positions: Seq<i64>, bound: usize)
    requires
        positions.len() <= usize::MAX,
    ensures
        positions_valid(positions, bound) <==> !exists|fault: PositionsFault|
            has_fault(positions, bound, fault),
        forall|first: PositionsFault, second: PositionsFault|
            #[trigger] has_fault(positions, bound, first) && #[trigger] has_fault(
                positions,
                bound,
                second,
            ) ==> first == second,
{
    if !positions_valid(positions, bound) {
        if positions.len() == 0 {
            assert(has_fault(positions, bound, PositionsFault::Empty));
        } else if bound == 0 {
            assert(has_fault(positions, bound, PositionsFault::ZeroBound));
        } else if bound > i64::MAX {
            assert(has_fault(positions, bound, PositionsFault::BoundExceedsI64 { bound }));
        } else {
            let outside = choose|i: int|
                0 <= i < positions.len() && !in_table(#[trigger] positions[i], bound);
            lemma_first_outside(positions, bound, outside);
        }
    }
    assert forall|first: PositionsFault, second: PositionsFault|
        #[trigger] has_fault(positions, bound, first) && #[trigger] has_fault(
            positions,
            bound,
            second,
        ) implies first == second by {
        match (first, second) {
            (
                PositionsFault::OutOfRange { index: a, bound: _, position: _ },
                PositionsFault::OutOfRange { index: b, bound: _, position: _ },
            ) => {
                if a < b {
                    assert(in_table(positions[a as int], bound));
                } else if b < a {
                    assert(in_table(positions[b as int], bound));
                }
            },
            _ => {},
        }
    }
}

proof fn lemma_first_outside(positions: Seq<i64>, bound: usize, outside: int)
    requires
        positions.len() <= usize::MAX,
        0 < bound <= i64::MAX,
        0 <= outside < positions.len(),
        !in_table(positions[outside], bound),
    ensures
        exists|fault: PositionsFault| has_fault(positions, bound, fault),
    decreases outside,
{
    if exists|i: int| 0 <= i < outside && !in_table(#[trigger] positions[i], bound) {
        let smaller = choose|i: int| 0 <= i < outside && !in_table(#[trigger] positions[i], bound);
        lemma_first_outside(positions, bound, smaller);
    } else {
        assert(has_fault(
            positions,
            bound,
            PositionsFault::OutOfRange {
                index: outside as usize,
                bound,
                position: positions[outside],
            },
        ));
    }
}

/// In an accepted request every token has a position, and each position names a row
/// that both rotary tables have in full. The kernel needs no check of its own as long as
/// nothing is written to the uploaded tensor.
pub proof fn law_accepted_positions_index_both_tables(request: QkRequest, token: int)
    requires
        request.fault() is None,
        request.positions.wf(),
        0 <= token < request.layout().tokens,
    ensures
        request.positions.values.len() == request.layout().tokens,
        0 <= request.positions.values[token] < request.layout().table_rows,
        (request.positions.values[token] + 1) * HALF_DIM <= request.cos.elem_count(),
        (request.positions.values[token] + 1) * HALF_DIM <= request.sin.elem_count(),
{
    let row = request.positions.values[token];
    let rows = request.cos.dims[0] as int;
    crate::tensor::lemma_product_of_two(request.cos.dims);
    assert((row + 1) * 64 <= rows * 64);
}

/// The rows of an accepted request are made of the query heads, the key heads and as
/// many value heads: the two outputs and the untouched values account for every element,
/// and each output has the shape it is given.
pub proof fn law_accepted_layout_accounts_for_every_element(request: QkRequest)
    requires
        request.fault() is None,
    ensures
        request.layout().fits_u32(),
        request.layout().row_width == packed_width(request.q_heads, request.kv_heads),
        request.layout().q_elements == request.layout().tokens * request.layout().q_heads
            * HEAD_DIM,
        request.layout().k_elements == request.layout().tokens * request.layout().kv_heads
            * HEAD_DIM,
        request.layout().q_elements + 2 * request.layout().k_elements == request.qkv.elem_count(),
        request.layout().q_elements > 0,
        request.layout().k_elements > 0,
{
    let tokens = request.qkv.dims[0] as nat;
    lemma_two_axes_fit(request.qkv.dims);
    lemma_outputs_fit(
        tokens,
        request.q_heads as nat,
        request.kv_heads as nat,
        request.qkv.elem_count(),
    );
    assert(tokens * request.q_heads > 0) by (nonlinear_arith)
        requires
            tokens > 0,
            request.q_heads > 0,
    ;
    assert(tokens * request.kv_heads > 0) by (nonlinear_arith)
        requires
            tokens > 0,
            request.kv_heads > 0,
    ;
}

/// A request is accepted only with kernels, on a CUDA device, and with every operand and
/// the positions on the device identity of the packed rows.
pub proof fn law_accepted_operands_share_one_device(request: QkRequest, cuda_feature: bool)
    requires
        request.outcome(cuda_feature) is Ok,
    ensures
        cuda_feature,
        request.qkv.location is Cuda,
        request.same_device.everywhere(),
{
}

/// An accepted request that is bound to its own tensors is launched with its own counts and
/// epsilon, and with the addresses at which those tensors start.
pub proof fn law_an_accepted_request_is_the_one_launched(
    request: QkRequest,
    cuda_feature: bool,
    layout: QkLayout,
    qkv: StoredView,
    q_weight: StoredView,
    k_weight: StoredView,
    cos: StoredView,
    sin: StoredView,
    positions: StoredView,
    launch: QkLaunch,
)
    requires
        request.outcome(cuda_feature) == Ok::<_, QkError>(layout),
        qkv.tensor == request.qkv,
        q_weight.tensor == request.q_weight,
        k_weight.tensor == request.k_weight,
        cos.tensor == request.cos,
        sin.tensor == request.sin,
        operands_fault(qkv, q_weight, k_weight, cos, sin, positions) is None,
        launches(
            launch,
            layout,
            request.eps_bits,
            qkv,
            q_weight,
            k_weight,
            cos,
            sin,
            positions,
        ),
    ensures
        launch.tokens == request.qkv.dims[0],
        launch.tokens == request.positions.values.len(),
        launch.q_heads == request.q_heads,
        launch.kv_heads == request.kv_heads,
        launch.row_width == packed_width(request.q_heads, request.kv_heads),
        launch.table_rows == request.cos.dims[0],
        launch.table_rows == request.positions.max_position,
        launch.eps_bits == request.eps_bits,
        launch.qkv == qkv.storage->Cuda_0.base + request.qkv.start_offset * 2,
        launch.q_weight == q_weight.storage->Cuda_0.base + request.q_weight.start_offset * 4,
        launch.k_weight == k_weight.storage->Cuda_0.base + request.k_weight.start_offset * 4,
        launch.cos == cos.storage->Cuda_0.base + request.cos.start_offset * 4,
        launch.sin == sin.storage->Cuda_0.base + request.sin.start_offset * 4,
        launch.positions == positions.storage->Cuda_0.base + positions.tensor.start_offset * 8,
{
}

/// Positions are valid exactly where there is one, the bound is a positive `i64` and each
/// position is a row below it. A fault reports the first of these that fails, with the first
/// position outside the table.
pub proof fn law_valid_positions_are_rows_of_the_table(
    positions: Seq<i64>,
    bound: usize,
    fault: PositionsFault,
)
    ensures
        positions_valid(positions, bound) <==> {
            &&& positions.len() > 0
            &&& 0 < bound <= i64::MAX
            &&& forall|i: int| 0 <= i < positions.len() ==> 0 <= #[trigger] positions[i] < bound
        },
        has_fault(positions, bound, fault) ==> match fault {
            PositionsFault::Empty => positions.len() == 0,
            PositionsFault::ZeroBound => positions.len() > 0 && bound == 0,
            PositionsFault::BoundExceedsI64 { bound: found } => positions.len() > 0 && bound
                > i64::MAX && found == bound,
            PositionsFault::OutOfRange { index, bound: found, position } => {
                &&& 0 < bound <= i64::MAX && found == bound
                &&& index < positions.len() && position == positions[index as int]
                &&& position < 0 || position >= bound
                &&& forall|i: int| 0 <= i < index ==> 0 <= #[trigger] positions[i] < bound
            },
        },
{
    let plain = positions.len() > 0 && 0 < bound <= i64::MAX && forall|i: int|
        0 <= i < positions.len() ==> 0 <= #[trigger] positions[i] < bound;
    if positions_valid(positions, bound) {
        assert forall|i: int| 0 <= i < positions.len() implies 0 <= #[trigger] positions[i]
            < bound by {
            assert(in_table(positions[i], bound));
        }
    }
    if plain {
        assert forall|i: int| 0 <= i < positions.len() implies in_table(
            #[trigger] positions[i],
            bound,
        ) by {
            assert(0 <= positions[i] < bound);
        }
    }
    if has_fault(positions, bound, fault) {
        if let PositionsFault::OutOfRange { index, bound: _, position: _ } = fault {
            assert forall|i: int| 0 <= i < index implies 0 <= #[trigger] positions[i] < bound by {
                assert(in_table(positions[i], bound));
            }
        }
    }
}

/// A certificate carries the positions in order, the bound and the device that they were
/// uploaded to, and is well formed exactly where each position is below the bound.
pub proof fn law_certificates_carry_their_positions(
    positions: Seq<i64>,
    max_position: usize,
    device: candle_core::Device,
    i: int,
)
    requires
        0 < positions.len() <= usize::MAX,
        0 <= i < positions.len(),
    ensures
        ({
            let view = certified(positions, max_position, device);
            &&& view.values.len() == positions.len()
            &&& view.values[i] == positions[i]
            &&& view.max_position == max_position
            &&& view.device == device_identity(device)
            &&& view.location == device_location(device)
            &&& view.wf() <==> forall|j: int|
                0 <= j < positions.len() ==> 0 <= #[trigger] positions[j] < max_position
        }),
{
    let view = certified(positions, max_position, device);
    if view.wf() {
        assert forall|j: int| 0 <= j < positions.len() implies 0 <= #[trigger] positions[j]
            < max_position by {
            assert(view.values[j] == positions[j]);
        }
    }
    if forall|j: int| 0 <= j < positions.len() ==> 0 <= #[trigger] positions[j] < max_position {
        assert forall|j: int| 0 <= j < view.values.len() implies 0 <= #[trigger] view.values[j]
            < view.max_position by {
            assert(view.values[j] == positions[j]);
        }
    }
}

/// For any positive head counts, packed `BF16` rows of the width of all heads together, with
/// their weights, rotary tables and certified positions contiguous on one CUDA device, are
/// never refused where the kernels were built. The outputs have one row of 128 channels for
/// each token and head.
pub proof fn law_a_sound_request_is_accepted(request: QkRequest)
    requires
        0 < request.eps_bits < 0x7f80_0000,
        0 < request.q_heads <= u32::MAX,
        0 < request.kv_heads <= u32::MAX,
        request.qkv.dims.len() == 2,
        0 < request.qkv.dims[0] <= u32::MAX,
        request.qkv.dims[1] == (request.q_heads + 2 * request.kv_heads) * 128,
        request.qkv.dims[1] <= u32::MAX,
        request.qkv.dims[0] * request.qkv.dims[1] <= usize::MAX,
        request.qkv.dtype is BF16,
        request.q_weight.dtype is F32,
        request.q_weight.dims == seq![128usize],
        request.k_weight.dtype is F32,
        request.k_weight.dims == seq![128usize],
        request.cos.dtype is F32,
        request.sin.dtype is F32,
        request.cos.dims.len() == 2,
        0 < request.cos.dims[0] <= u32::MAX,
        request.cos.dims[1] == 64,
        request.cos.dims[0] * 64 <= usize::MAX,
        request.sin.dims == request.cos.dims,
        request.positions.values.len() == request.qkv.dims[0],
        request.positions.max_position == request.cos.dims[0],
        request.qkv.contiguous(),
        request.q_weight.contiguous(),
        request.k_weight.contiguous(),
        request.cos.contiguous(),
        request.sin.contiguous(),
        request.same_device.q_weight,
        request.same_device.k_weight,
        request.same_device.cos,
        request.same_device.sin,
        request.same_device.positions,
        request.qkv.location is Cuda,
    ensures
        ({
            let outcome = request.outcome(true);
            let layout = outcome->Ok_0;
            &&& outcome is Ok
            &&& layout.tokens == request.qkv.dims[0]
            &&& layout.q_heads == request.q_heads
            &&& layout.kv_heads == request.kv_heads
            &&& layout.row_width == request.qkv.dims[1]
            &&& layout.table_rows == request.cos.dims[0]
            &&& layout.q_elements == request.qkv.dims[0] * request.q_heads * 128
            &&& layout.k_elements == request.qkv.dims[0] * request.kv_heads * 128
        }),
{
    assert(request.fault() is None);
    law_accepted_layout_accounts_for_every_element(request);
}

/// A request is refused for a rule that it breaks while it keeps all rules before that one,
/// and the refusal reports what was found. What is accepted keeps them all.
pub proof fn law_a_refused_request_breaks_the_rule_it_is_refused_for(
    request: QkRequest,
    cuda_feature: bool,
)
    ensures
        ({
            let qkv = request.qkv;
            let cos = request.cos;
            let sin = request.sin;
            let same = request.same_device;
            let heads = request.q_heads + 2 * request.kv_heads;
            let positive = 0 < request.eps_bits < 0x7f80_0000;
            let headed = positive && request.q_heads > 0 && request.kv_heads > 0;
            let ranked = headed && qkv.dims.len() == 2;
            let filled = ranked && qkv.dims[0] > 0;
            let kv_counted = filled && 2 * request.kv_heads <= usize::MAX;
            let counted = kv_counted && heads <= usize::MAX;
            let measured = counted && heads * 128 <= usize::MAX;
            let shaped = measured && qkv.dims[1] == heads * 128;
            let sized = shaped && qkv.dims[0] * qkv.dims[1] <= usize::MAX;
            let typed = sized && qkv.dtype is BF16;
            let q_weighted = typed && request.q_weight.dtype is F32 && request.q_weight.dims
                == seq![128usize];
            let weighted = q_weighted && request.k_weight.dtype is F32 && request.k_weight.dims
                == seq![128usize];
            let tabled = weighted && cos.dims.len() == 2;
            let matched = tabled && cos.dims[0] > 0 && cos.dims[1] == 64 && sin.dims == cos.dims;
            let tables_typed = matched && cos.dtype is F32 && sin.dtype is F32;
            let tables_sized = tables_typed && cos.dims[0] * 64 <= usize::MAX;
            let certified = tables_sized && request.positions.values.len() == qkv.dims[0]
                && request.positions.max_position == cos.dims[0];
            let qkv_laid = certified && qkv.contiguous();
            let q_weight_laid = qkv_laid && request.q_weight.contiguous();
            let q_weight_placed = q_weight_laid && same.q_weight;
            let k_weight_laid = q_weight_placed && request.k_weight.contiguous();
            let k_weight_placed = k_weight_laid && same.k_weight;
            let cos_laid = k_weight_placed && cos.contiguous();
            let cos_placed = cos_laid && same.cos;
            let sin_laid = cos_placed && sin.contiguous();
            let sin_placed = sin_laid && same.sin;
            let placed = sin_placed && same.positions;
            let tokens_fit = placed && qkv.dims[0] <= u32::MAX;
            let q_heads_fit = tokens_fit && request.q_heads <= u32::MAX;
            let kv_heads_fit = q_heads_fit && request.kv_heads <= u32::MAX;
            let width_fits = kv_heads_fit && qkv.dims[1] <= u32::MAX;
            let fits = width_fits && cos.dims[0] <= u32::MAX;
            match request.outcome(cuda_feature) {
                Ok(_) => fits && cuda_feature && qkv.location is Cuda,
                Err(QkError::Epsilon { eps_bits }) => !positive && eps_bits == request.eps_bits,
                Err(QkError::HeadCounts) => positive && !headed,
                Err(QkError::Rank { operand, error }) => {
                    &&& error.expected == 2
                    &&& operand is Qkv || operand is Cos
                    &&& operand is Qkv ==> headed && !ranked && error.got
                        == qkv.dims.len() as usize
                    &&& operand is Cos ==> weighted && !tabled && error.got
                        == cos.dims.len() as usize
                },
                Err(QkError::NoTokens) => ranked && !filled,
                Err(QkError::Product(error)) => match error.quantity {
                    Quantity::QkvKvHeadCount => filled && !kv_counted,
                    Quantity::QkvRowWidth => counted && !measured,
                    Quantity::QkvElementCount => shaped && !sized,
                    Quantity::RopeTableElementCount => tables_typed && !tables_sized,
                    _ => false,
                },
                Err(QkError::HeadCountOverflow) => kv_counted && !counted,
                Err(QkError::QkvShape { tokens, expected_width, width }) => {
                    &&& measured && !shaped
                    &&& tokens == qkv.dims[0] && expected_width == heads * 128 && width
                        == qkv.dims[1]
                },
                Err(QkError::QkvDType { dtype }) => sized && !typed && dtype == qkv.dtype,
                Err(QkError::WeightContract { operand, weight_dtype }) => {
                    &&& operand is QWeight || operand is KWeight
                    &&& operand is QWeight ==> typed && !q_weighted && weight_dtype
                        == request.q_weight.dtype
                    &&& operand is KWeight ==> q_weighted && !weighted && weight_dtype
                        == request.k_weight.dtype
                },
                Err(QkError::TableShapes) => tabled && !matched,
                Err(QkError::TableDTypes { cos: cos_dtype, sin: sin_dtype }) => matched
                    && !tables_typed && cos_dtype == cos.dtype && sin_dtype == sin.dtype,
                Err(QkError::Certificate { len, bound, certified_tokens, table_rows }) => {
                    &&& tables_sized && !certified
                    &&& len == request.positions.values.len() as usize
                    &&& bound == request.positions.max_position
                    &&& certified_tokens == qkv.dims[0] && table_rows == cos.dims[0]
                },
                Err(QkError::NotContiguous { operand }) => match operand {
                    Operand::Qkv => certified && !qkv_laid,
                    Operand::QWeight => qkv_laid && !q_weight_laid,
                    Operand::KWeight => q_weight_placed && !k_weight_laid,
                    Operand::Cos => k_weight_placed && !cos_laid,
                    Operand::Sin => cos_placed && !sin_laid,
                    Operand::Positions => false,
                },
                Err(QkError::DifferentDevice { operand }) => match operand {
                    Operand::Qkv => false,
                    Operand::QWeight => q_weight_laid && !q_weight_placed,
                    Operand::KWeight => k_weight_laid && !k_weight_placed,
                    Operand::Cos => cos_laid && !cos_placed,
                    Operand::Sin => sin_laid && !sin_placed,
                    Operand::Positions => sin_placed && !placed,
                },
                Err(QkError::ExceedsU32 { extent }) => match extent {
                    Extent::Tokens => placed && !tokens_fit,
                    Extent::QHeads => tokens_fit && !q_heads_fit,
                    Extent::KvHeads => q_heads_fit && !kv_heads_fit,
                    Extent::RowWidth => kv_heads_fit && !width_fits,
                    Extent::TableRows => width_fits && !fits,
                },
                Err(QkError::CudaFeatureRequired) => fits && !cuda_feature,
                Err(QkError::NotCuda) => fits && cuda_feature && !(qkv.location is Cuda),
                _ => false,
            }
        }),
{
}

/// Operands are refused for a rule that they break while they keep all rules before that one:
/// first all must be in device memory, then the rows as `BF16`, the weights and tables as
/// `F32` and the positions as `I64`.
pub proof fn law_refused_operands_break_the_rule_they_are_refused_for(
    qkv: StoredView,
    q_weight: StoredView,
    k_weight: StoredView,
    cos: StoredView,
    sin: StoredView,
    positions: StoredView,
)
    ensures
        ({
            let s0 = qkv.storage is Cuda;
            let s1 = s0 && q_weight.storage is Cuda;
            let s2 = s1 && k_weight.storage is Cuda;
            let s3 = s2 && cos.storage is Cuda;
            let s4 = s3 && sin.storage is Cuda;
            let stored = s4 && positions.storage is Cuda;
            let t0 = stored && qkv.storage->Cuda_0.dtype is BF16;
            let t1 = t0 && q_weight.storage->Cuda_0.dtype is F32;
            let t2 = t1 && k_weight.storage->Cuda_0.dtype is F32;
            let t3 = t2 && cos.storage->Cuda_0.dtype is F32;
            let t4 = t3 && sin.storage->Cuda_0.dtype is F32;
            let typed = t4 && positions.storage->Cuda_0.dtype is I64;
            match operands_fault(qkv, q_weight, k_weight, cos, sin, positions) {
                None => typed,
                Some(QkError::NotCudaStorage { operand }) => match operand {
                    Operand::Qkv => !s0,
                    Operand::QWeight => s0 && !s1,
                    Operand::KWeight => s1 && !s2,
                    Operand::Cos => s2 && !s3,
                    Operand::Sin => s3 && !s4,
                    Operand::Positions => s4 && !stored,
                },
                Some(QkError::StorageDType { operand }) => match operand {
                    Operand::Qkv => stored && !t0,
                    Operand::QWeight => t0 && !t1,
                    Operand::KWeight => t1 && !t2,
                    Operand::Cos => t2 && !t3,
                    Operand::Sin => t3 && !t4,
                    Operand::Positions => t4 && !typed,
                },
                _ => false,
            }
        }),
{
}

/// A request on Candle tensors is judged by what Candle says of each of them, each in its own
/// place, and by whether it shares the device identity of the packed rows.
pub proof fn law_tensors_are_judged_by_their_own_descriptions(
    qkv: candle_core::Tensor,
    q_weight: candle_core::Tensor,
    k_weight: candle_core::Tensor,
    cos: candle_core::Tensor,
    sin: candle_core::Tensor,
    positions: PositionsView,
    request: QkRequest,
    cuda_feature: bool,
)
    requires
        request.qkv == tensor_view(qkv),
        request.q_weight == tensor_view(q_weight),
        request.k_weight == tensor_view(k_weight),
        request.cos == tensor_view(cos),
        request.sin == tensor_view(sin),
        request.positions == positions,
        request.same_device.q_weight == (tensor_identity(q_weight) == tensor_identity(qkv)),
        request.same_device.k_weight == (tensor_identity(k_weight) == tensor_identity(qkv)),
        request.same_device.cos == (tensor_identity(cos) == tensor_identity(qkv)),
        request.same_device.sin == (tensor_identity(sin) == tensor_identity(qkv)),
        request.same_device.positions == (positions.device == tensor_identity(qkv)),
    ensures
        tensors_outcome(
            qkv,
            q_weight,
            k_weight,
            cos,
            sin,
            positions,
            request.eps_bits,
            request.q_heads,
            request.kv_heads,
            cuda_feature,
        ) == request.outcome(cuda_feature),
        request.same_device == SameDevice::spec_of(qkv, q_weight, k_weight, cos, sin, positions),
{
}

/// A launch carries the sizes of its layout and, for each operand in device memory, the
/// address at which that operand's own view starts.
pub proof fn law_a_launch_points_at_its_own_operands(
    launch: QkLaunch,
    layout: QkLayout,
    eps_bits: u32,
    qkv: StoredView,
    q_weight: StoredView,
    k_weight: StoredView,
    cos: StoredView,
    sin: StoredView,
    positions: StoredView,
)
    requires
        operands_fault(qkv, q_weight, k_weight, cos, sin, positions) is None,
        launches(launch, layout, eps_bits, qkv, q_weight, k_weight, cos, sin, positions),
    ensures
        launch.qkv == qkv.storage->Cuda_0.base + qkv.tensor.start_offset * 2,
        launch.q_weight == q_weight.storage->Cuda_0.base + q_weight.tensor.start_offset * 4,
        launch.k_weight == k_weight.storage->Cuda_0.base + k_weight.tensor.start_offset * 4,
        launch.cos == cos.storage->Cuda_0.base + cos.tensor.start_offset * 4,
        launch.sin == sin.storage->Cuda_0.base + sin.tensor.start_offset * 4,
        launch.positions == positions.storage->Cuda_0.base + positions.tensor.start_offset * 8,
        launch.tokens == layout.tokens,
        launch.q_heads == layout.q_heads,
        launch.kv_heads == layout.kv_heads,
        launch.row_width == layout.row_width,
        launch.table_rows == layout.table_rows,
        launch.eps_bits == eps_bits,
{
}

/// Operands are all on the host where each of them is, and the host is then their one device
/// as far as the rules ask.
pub proof fn law_the_host_is_where_every_operand_is(
    qkv: candle_core::Tensor,
    q_weight: candle_core::Tensor,
    k_weight: candle_core::Tensor,
    cos: candle_core::Tensor,
    sin: candle_core::Tensor,
    positions: PositionsView,
    same: SameDevice,
)
    ensures
        all_on_host(qkv, q_weight, k_weight, cos, sin, positions) <==> {
            &&& tensor_view(qkv).location is Cpu && tensor_view(q_weight).location is Cpu
            &&& tensor_view(k_weight).location is Cpu && tensor_view(cos).location is Cpu
            &&& tensor_view(sin).location is Cpu && positions.location is Cpu
        },
        same.everywhere() <==> same == (SameDevice {
            q_weight: true,
            k_weight: true,
            cos: true,
            sin: true,
            positions: true,
        }),
{
}

} // verus!
