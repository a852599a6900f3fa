//! Plain descriptions of Candle tensors.
//!
//! A [`TensorDesc`] holds what the planning rules read of a tensor: its element
//! type, extents, strides, offset and location. What Candle computes from these
//! (element counts, contiguity, element sizes) is still computed by Candle.

use vstd::prelude::*;

verus! {

/// Candle's tensor handle, opaque here.
#[verifier::external_type_specification]
#[verifier::external_body]
pub struct ExTensor(candle_core::Tensor);

/// Candle's device handle, opaque here.
#[verifier::external_type_specification]
#[verifier::external_body]
pub struct ExDevice(candle_core::Device);

/// Candle's error, carried through unchanged.
#[verifier::external_type_specification]
#[verifier::external_body]
pub struct ExError(candle_core::Error);

/// Element types of tensors.
#[derive(Clone, Copy, Debug, PartialEq, Eq, Structural)]
pub enum DType {
    U8,
    U32,
    I64,
    BF16,
    F16,
    F32,
    F64,
}

/// The physical place of a device. Several devices may share one location.
#[derive(Clone, Copy, Debug, PartialEq, Eq, Structural)]
pub enum Location {
    Cpu,
    Cuda { gpu_id: usize },
    Metal { gpu_id: usize },
}

/// The mathematical content of a [`TensorDesc`].
#[verifier::ext_equal]
pub struct TensorView {
    pub dtype: DType,
    pub dims: Seq<usize>,
    pub stride: Seq<usize>,
    pub start_offset: usize,
    pub location: Location,
}

/// The elements a tensor was created from, in row-major order, as integers.
pub uninterp spec fn tensor_values(tensor: candle_core::Tensor) -> Seq<int>;

/// The element type, extents, strides, offset and location of a tensor. Candle
/// fixes them when it creates the tensor.
pub uninterp spec fn tensor_view(tensor: candle_core::Tensor) -> TensorView;

/// The identity of the device that a tensor lives on. Candle tells devices apart even
/// where they share a location.
pub uninterp spec fn tensor_identity(tensor: candle_core::Tensor) -> int;

/// The identity of a device.
pub uninterp spec fn device_identity(device: candle_core::Device) -> int;

/// The location of a device.
pub uninterp spec fn device_location(device: candle_core::Device) -> Location;

/// The product of a sequence of extents; one for the empty sequence.
pub open spec fn product(extents: Seq<usize>) -> nat
    decreases extents.len(),
{
    if extents.len() == 0 {
        1
    } else {
        product(extents.drop_last()) * (extents.last() as nat)
    }
}

/// The extents can be multiplied up in a `usize`, from the first one.
pub open spec fn leading_fit(extents: Seq<usize>) -> bool {
    forall|i: int|
        0 <= i <= extents.len() ==> product(#[trigger] extents.take(i)) <= usize::MAX
}

/// The extents from axis `from` on can be multiplied up in a `usize`, from the last one.
pub open spec fn trailing_fit(extents: Seq<usize>, from: int) -> bool {
    forall|i: int|
        from <= i <= extents.len() ==> product(#[trigger] extents.skip(i)) <= usize::MAX
}

/// The axis has more than one index, and a step along it does not skip exactly the
/// elements of the axes behind it.
pub open spec fn order_broken_at(dims: Seq<usize>, stride: Seq<usize>, axis: int) -> bool {
    dims[axis] > 1 && stride[axis] != product(dims.skip(axis + 1))
}

/// Row-major without gaps: no axis breaks the order.
pub open spec fn row_major(dims: Seq<usize>, stride: Seq<usize>) -> bool {
    &&& stride.len() == dims.len()
    &&& forall|axis: int| 0 <= axis < dims.len() ==> !#[trigger] order_broken_at(dims, stride, axis)
}

/// Going through the axes from the last one, an axis that breaks the order is met before
/// the extents behind it leave the `usize`, or they never leave it.
pub open spec fn order_told(dims: Seq<usize>, stride: Seq<usize>) -> bool {
    ||| stride.len() != dims.len()
    ||| trailing_fit(dims, 0)
    ||| exists|axis: int|
        0 <= axis < dims.len() && #[trigger] order_broken_at(dims, stride, axis) && trailing_fit(
            dims,
            axis + 1,
        )
}

impl TensorView {
    /// The number of elements.
    pub open spec fn elem_count(self) -> nat {
        product(self.dims)
    }

    /// Candle can count the elements in a `usize`.
    pub open spec fn countable(self) -> bool {
        leading_fit(self.dims)
    }

    /// Row-major without gaps: along each axis that has more than one index, a
    /// step skips exactly the elements of the axes behind it.
    pub open spec fn contiguous(self) -> bool {
        row_major(self.dims, self.stride)
    }

    /// Whether the tensor is contiguous; `None` where Candle's answer takes a product that
    /// is no `usize`.
    pub open spec fn contiguity(self) -> Option<bool> {
        if order_told(self.dims, self.stride) {
            Some(self.contiguous())
        } else {
            None
        }
    }
}

impl DType {
    /// The bytes that one element takes.
    pub open spec fn bytes(self) -> nat {
        match self {
            DType::U8 => 1,
            DType::BF16 | DType::F16 => 2,
            DType::U32 | DType::F32 => 4,
            DType::I64 | DType::F64 => 8,
        }
    }

    /// The bytes that one element takes.
    pub fn size_in_bytes(self) -> (size: usize)
        ensures
            size == self.bytes(),
    {
        candle_size_in_bytes(self)
    }
}

/// A clone of a tensor handle stands for the same tensor.
pub assume_specification[ <candle_core::Tensor as Clone>::clone ](
    tensor: &candle_core::Tensor,
) -> (clone: candle_core::Tensor)
    ensures
        tensor_values(clone) == tensor_values(*tensor),
        tensor_view(clone) == tensor_view(*tensor),
        tensor_identity(clone) == tensor_identity(*tensor),
;

/// Calls `candle_core::DType::size_in_bytes`: the size of one element in bytes.
#[verifier::external_body]
fn candle_size_in_bytes(dtype: DType) -> (size: usize)
    ensures
        size == dtype.bytes(),
{
    let dtype = match dtype {
        DType::U8 => candle_core::DType::U8,
        DType::U32 => candle_core::DType::U32,
        DType::I64 => candle_core::DType::I64,
        DType::BF16 => candle_core::DType::BF16,
        DType::F16 => candle_core::DType::F16,
        DType::F32 => candle_core::DType::F32,
        DType::F64 => candle_core::DType::F64,
    };
    dtype.size_in_bytes()
}

/// Calls `candle_core::Shape::elem_count`: the product of the extents, multiplied
/// up from the first one.
#[verifier::external_body]
fn candle_elem_count(dims: &[usize]) -> (count: usize)
    requires
        leading_fit(dims@),
    ensures
        count == product(dims@),
{
    candle_core::Shape::from_dims(dims).elem_count()
}

/// Calls `candle_core::Shape::is_contiguous`: whether each axis with more than one
/// index has the product of the extents behind it as its stride. Candle multiplies
/// the extents up from the last one, until an axis breaks the order.
#[verifier::external_body]
fn candle_is_contiguous(dims: &[usize], stride: &[usize]) -> (contiguous: bool)
    requires
        order_told(dims@, stride@),
    ensures
        contiguous == row_major(dims@, stride@),
{
    candle_core::Shape::from_dims(dims).is_contiguous(stride)
}

/// Calls `candle_core::Tensor::dtype`.
#[verifier::external_body]
fn candle_dtype(tensor: &candle_core::Tensor) -> (dtype: DType)
    ensures
        dtype == tensor_view(*tensor).dtype,
{
    match tensor.dtype() {
        candle_core::DType::U8 => DType::U8,
        candle_core::DType::U32 => DType::U32,
        candle_core::DType::I64 => DType::I64,
        candle_core::DType::BF16 => DType::BF16,
        candle_core::DType::F16 => DType::F16,
        candle_core::DType::F32 => DType::F32,
        candle_core::DType::F64 => DType::F64,
    }
}

/// Calls `candle_core::Tensor::dims`.
#[verifier::external_body]
fn candle_dims(tensor: &candle_core::Tensor) -> (dims: Vec<usize>)
    ensures
        dims@ == tensor_view(*tensor).dims,
{
    tensor.dims().to_vec()
}

/// Calls `candle_core::Tensor::stride`.
#[verifier::external_body]
fn candle_stride(tensor: &candle_core::Tensor) -> (stride: Vec<usize>)
    ensures
        stride@ == tensor_view(*tensor).stride,
{
    tensor.stride().to_vec()
}

/// Calls `candle_core::Layout::start_offset` on the layout of the tensor.
#[verifier::external_body]
fn candle_start_offset(tensor: &candle_core::Tensor) -> (start_offset: usize)
    ensures
        start_offset == tensor_view(*tensor).start_offset,
{
    tensor.layout().start_offset()
}

/// Calls `candle_core::Device::location` on the device of the tensor.
#[verifier::external_body]
fn candle_location(tensor: &candle_core::Tensor) -> (location: Location)
    ensures
        location == tensor_view(*tensor).location,
{
    match tensor.device().location() {
        candle_core::DeviceLocation::Cpu => Location::Cpu,
        candle_core::DeviceLocation::Cuda { gpu_id } => Location::Cuda { gpu_id },
        candle_core::DeviceLocation::Metal { gpu_id } => Location::Metal { gpu_id },
    }
}

/// Calls `candle_core::Device::same_device` on the devices of both tensors. Candle compares
/// the identities of CUDA and Metal devices; the host is a single device.
#[verifier::external_body]
fn candle_same_device(lhs: &candle_core::Tensor, rhs: &candle_core::Tensor) -> (same: bool)
    ensures
        same == (tensor_identity(*lhs) == tensor_identity(*rhs)),
        tensor_view(*lhs).location is Cpu && tensor_view(*rhs).location is Cpu ==> same,
{
    lhs.device().same_device(rhs.device())
}

/// Whether two tensors live on the same device identity.
pub fn same_device(lhs: &candle_core::Tensor, rhs: &candle_core::Tensor) -> (same: bool)
    ensures
        same == (tensor_identity(*lhs) == tensor_identity(*rhs)),
        tensor_view(*lhs).location is Cpu && tensor_view(*rhs).location is Cpu ==> same,
{
    candle_same_device(lhs, rhs)
}

/// Calls `candle_core::Device::is_cpu`: whether the device is the host, which is the only
/// device at the host's location.
#[verifier::external_body]
fn candle_is_cpu(device: &candle_core::Device) -> (host: bool)
    ensures
        host == (device_location(*device) is Cpu),
{
    device.is_cpu()
}

/// Whether a device is the host, which takes every upload.
pub fn is_host(device: &candle_core::Device) -> (host: bool)
    ensures
        host == (device_location(*device) is Cpu),
{
    candle_is_cpu(device)
}

/// Calls `candle_core::Tensor::from_vec` on a copy of the values, with one axis that
/// covers them all. A tensor that comes back holds these values as `U32`, in order,
/// with a unit stride and no offset, and lives on the device. The host takes any
/// values; whether another device takes them is up to that device.
#[verifier::external_body]
pub(crate) fn upload_u32(values: &[u32], device: &candle_core::Device) -> (uploaded: Result<
    candle_core::Tensor,
    candle_core::Error,
>)
    ensures
        uploaded matches Ok(tensor) ==> {
            &&& tensor_values(tensor) == values@.map_values(|value: u32| value as int)
            &&& tensor_view(tensor).dtype == DType::U32
            &&& tensor_view(tensor).dims == seq![values@.len() as usize]
            &&& tensor_view(tensor).stride == seq![1usize]
            &&& tensor_view(tensor).start_offset == 0
            &&& tensor_view(tensor).location == device_location(*device)
            &&& tensor_identity(tensor) == device_identity(*device)
        },
        device_location(*device) is Cpu ==> uploaded is Ok,
{
    candle_core::Tensor::from_vec(values.to_vec(), values.len(), device)
}

/// Calls `candle_core::Tensor::from_vec` on a copy of the values, with one axis that
/// covers them all. A tensor that comes back holds these values as `I64`, in order,
/// with a unit stride and no offset, and lives on the device. The host takes any
/// values; whether another device takes them is up to that device.
#[verifier::external_body]
pub(crate) fn upload_i64(values: &[i64], device: &candle_core::Device) -> (uploaded: Result<
    candle_core::Tensor,
    candle_core::Error,
>)
    ensures
        uploaded matches Ok(tensor) ==> {
            &&& tensor_values(tensor) == values@.map_values(|value: i64| value as int)
            &&& tensor_view(tensor).dtype == DType::I64
            &&& tensor_view(tensor).dims == seq![values@.len() as usize]
            &&& tensor_view(tensor).stride == seq![1usize]
            &&& tensor_view(tensor).start_offset == 0
            &&& tensor_view(tensor).location == device_location(*device)
            &&& tensor_identity(tensor) == device_identity(*device)
        },
        device_location(*device) is Cpu ==> uploaded is Ok,
{
    candle_core::Tensor::from_vec(values.to_vec(), values.len(), device)
}

/// A leading axis splits a tensor evenly: the element count is the leading extent
/// times the product of the extents behind it.
pub proof fn lemma_product_first(extents: Seq<usize>)
    requires
        extents.len() > 0,
    ensures
        product(extents) == extents[0] as nat * product(extents.drop_first()),
    decreases extents.len(),
{
    let first = extents[0] as nat;
    let last = extents.last() as nat;
    assert(product(extents) == product(extents.drop_last()) * last);
    if extents.len() == 1 {
        assert(extents.drop_last() =~= Seq::<usize>::empty());
        assert(extents.drop_first() =~= Seq::<usize>::empty());
        assert(product(Seq::<usize>::empty()) == 1);
        assert(1 * last == first * 1);
    } else {
        let behind = extents.drop_first();
        let middle = product(behind.drop_last());
        lemma_product_first(extents.drop_last());
        assert(extents.drop_last().drop_first() =~= behind.drop_last());
        assert(product(extents.drop_last()) == first * middle);
        assert(product(behind) == middle * last);
        assert((first * middle) * last == first * (middle * last)) by (nonlinear_arith);
    }
}

/// The element count of a matrix.
pub proof fn lemma_product_of_two(extents: Seq<usize>)
    requires
        extents.len() == 2,
    ensures
        product(extents) == extents[0] * extents[1],
{
    lemma_product_first(extents);
    lemma_product_first(extents.drop_first());
    assert(extents.drop_first().drop_first() =~= Seq::<usize>::empty());
    assert(product(extents.drop_first()) == extents[1] as nat * 1);
}

/// A single extent can always be multiplied up.
pub proof fn lemma_one_axis_fits(extents: Seq<usize>)
    requires
        extents.len() == 1,
    ensures
        trailing_fit(extents, 0),
        leading_fit(extents),
        product(extents) == extents[0],
{
    assert(extents.drop_last() =~= Seq::<usize>::empty());
    assert(product(extents.drop_last()) == 1);
    assert(product(extents) == product(extents.drop_last()) * (extents.last() as nat));
    assert forall|i: int| 0 <= i <= extents.len() implies product(#[trigger] extents.take(i))
        <= usize::MAX by {
        assert(i == 0 || extents.take(i) =~= extents);
    }
    assert forall|i: int| 0 <= i <= extents.len() implies product(#[trigger] extents.skip(i))
        <= usize::MAX by {
        assert(i == 1 || extents.skip(i) =~= extents);
    }
}

/// The extents of a matrix can be multiplied up from either end where their product is a
/// `usize`.
pub proof fn lemma_two_axes_fit(extents: Seq<usize>)
    requires
        extents.len() == 2,
        extents[0] * extents[1] <= usize::MAX,
    ensures
        trailing_fit(extents, 0),
        leading_fit(extents),
        product(extents) == extents[0] * extents[1],
{
    lemma_product_of_two(extents);
    assert forall|i: int| 0 <= i <= extents.len() implies product(#[trigger] extents.take(i))
        <= usize::MAX by {
        if i == 0 {
            assert(extents.take(i) =~= Seq::<usize>::empty());
        } else if i == 1 {
            lemma_one_axis_fits(extents.take(i));
        } else {
            assert(extents.take(i) =~= extents);
        }
    }
    assert forall|i: int| 0 <= i <= extents.len() implies product(#[trigger] extents.skip(i))
        <= usize::MAX by {
        if i == 0 {
            assert(extents.skip(i) =~= extents);
        } else if i == 1 {
            lemma_one_axis_fits(extents.skip(i));
        } else {
            assert(extents.skip(i) =~= Seq::<usize>::empty());
        }
    }
}

/// A tensor that Candle finds contiguous has a `usize` of elements.
pub proof fn lemma_contiguous_product(view: TensorView)
    requires
        view.contiguity() == Some(true),
    ensures
        view.elem_count() <= usize::MAX,
{
    assert(trailing_fit(view.dims, 0));
    assert(view.dims.skip(0) =~= view.dims);
}

fn leading_extents_fit(dims: &Vec<usize>) -> (fit: bool)
    ensures
        fit == leading_fit(dims@),
{
    let n: usize = dims.len();
    let mut acc: usize = 1;
    let mut i: usize = 0;
    while i < n
        invariant
            n == dims@.len(),
            i <= n,
            acc == product(dims@.take(i as int)),
            forall|j: int| 0 <= j <= i ==> product(#[trigger] dims@.take(j)) <= usize::MAX,
        decreases n - i,
    {
        proof {
            assert(dims@.take(i + 1).drop_last() =~= dims@.take(i as int));
            assert(product(dims@.take(i + 1)) == product(dims@.take(i as int)) * dims@[i as int]);
        }
        match acc.checked_mul(dims[i]) {
            Some(next) => {
                acc = next;
            },
            None => {
                return false;
            },
        }
        i = i + 1;
    }
    true
}

fn order_is_told(dims: &Vec<usize>, stride: &Vec<usize>) -> (told: bool)
    ensures
        told == order_told(dims@, stride@),
{
    if stride.len() != dims.len() {
        return true;
    }
    let n: usize = dims.len();
    let mut acc: usize = 1;
    let mut i: usize = n;
    assert(dims@.skip(n as int) =~= Seq::<usize>::empty());
    while i > 0
        invariant
            n == dims@.len(),
            n == stride@.len(),
            i <= n,
            acc == product(dims@.skip(i as int)),
            trailing_fit(dims@, i as int),
            forall|axis: int|
                i <= axis < n ==> !#[trigger] order_broken_at(dims@, stride@, axis),
        decreases i,
    {
        proof {
            lemma_product_first(dims@.skip(i - 1));
            assert(dims@.skip(i - 1).drop_first() =~= dims@.skip(i as int));
            assert(product(dims@.skip(i - 1)) == dims@[i - 1] * product(dims@.skip(i as int)));
        }
        if dims[i - 1] > 1 && stride[i - 1] != acc {
            assert(order_broken_at(dims@, stride@, i - 1));
            return true;
        }
        match dims[i - 1].checked_mul(acc) {
            Some(next) => {
                acc = next;
            },
            None => {
                assert(product(dims@.skip(i - 1)) > usize::MAX);
                return false;
            },
        }
        i = i - 1;
    }
    true
}

/// A tensor that does not have the expected number of axes.
#[derive(Clone, Copy, Debug, PartialEq, Eq, Structural)]
pub struct RankError {
    pub expected: usize,
    pub got: usize,
}

/// What the planning rules read of a tensor, apart from its storage.
pub struct TensorDesc {
    dtype: DType,
    dims: Vec<usize>,
    stride: Vec<usize>,
    start_offset: usize,
    location: Location,
}

impl View for TensorDesc {
    type V = TensorView;

    closed spec fn view(&self) -> TensorView {
        TensorView {
            dtype: self.dtype,
            dims: self.dims@,
            stride: self.stride@,
            start_offset: self.start_offset,
            location: self.location,
        }
    }
}

impl TensorDesc {
    /// Describes a tensor by its parts.
    pub fn new(
        dtype: DType,
        dims: Vec<usize>,
        stride: Vec<usize>,
        start_offset: usize,
        location: Location,
    ) -> (desc: TensorDesc)
        ensures
            desc@ == (TensorView {
                dtype,
                dims: dims@,
                stride: stride@,
                start_offset,
                location,
            }),
    {
        TensorDesc { dtype, dims, stride, start_offset, location }
    }

    /// Describes a Candle tensor.
    pub fn of(tensor: &candle_core::Tensor) -> (desc: TensorDesc)
        ensures
            desc@ == tensor_view(*tensor),
    {
        TensorDesc::new(
            candle_dtype(tensor),
            candle_dims(tensor),
            candle_stride(tensor),
            candle_start_offset(tensor),
            candle_location(tensor),
        )
    }

    pub fn dtype(&self) -> (dtype: DType)
        ensures
            dtype == self@.dtype,
    {
        self.dtype
    }

    pub fn dims(&self) -> (dims: &Vec<usize>)
        ensures
            dims@ == self@.dims,
    {
        &self.dims
    }

    pub fn start_offset(&self) -> (start_offset: usize)
        ensures
            start_offset == self@.start_offset,
    {
        self.start_offset
    }

    pub fn location(&self) -> (location: Location)
        ensures
            location == self@.location,
    {
        self.location
    }

    /// The extents of a matrix.
    pub fn dims2(&self) -> (result: Result<(usize, usize), RankError>)
        ensures
            match result {
                Ok((rows, columns)) => self@.dims == seq![rows, columns],
                Err(error) => self@.dims.len() != 2 && error.expected == 2 && error.got
                    == self@.dims.len(),
            },
    {
        if self.dims.len() != 2 {
            return Err(RankError { expected: 2, got: self.dims.len() });
        }
        Ok((self.dims[0], self.dims[1]))
    }

    /// The extents of a tensor with three axes.
    pub fn dims3(&self) -> (result: Result<(usize, usize, usize), RankError>)
        ensures
            match result {
                Ok((first, second, third)) => self@.dims == seq![first, second, third],
                Err(error) => self@.dims.len() != 3 && error.expected == 3 && error.got
                    == self@.dims.len(),
            },
    {
        if self.dims.len() != 3 {
            return Err(RankError { expected: 3, got: self.dims.len() });
        }
        Ok((self.dims[0], self.dims[1], self.dims[2]))
    }

    /// The number of elements; `None` where the extents cannot be multiplied up in a
    /// `usize`.
    pub fn elem_count(&self) -> (count: Option<usize>)
        ensures
            match count {
                Some(count) => self@.countable() && count == self@.elem_count(),
                None => !self@.countable(),
            },
    {
        if leading_extents_fit(&self.dims) {
            Some(candle_elem_count(self.dims.as_slice()))
        } else {
            None
        }
    }

    /// Whether the elements lie row-major without gaps; `None` where the answer takes a
    /// product that is no `usize`.
    pub fn is_contiguous(&self) -> (contiguous: Option<bool>)
        ensures
            contiguous == self@.contiguity(),
    {
        if order_is_told(&self.dims, &self.stride) {
            Some(candle_is_contiguous(self.dims.as_slice(), self.stride.as_slice()))
        } else {
            None
        }
    }
}

/// A run of device memory that holds elements of one type.
#[derive(Clone, Copy, Debug, PartialEq, Eq, Structural)]
pub struct CudaSlice {
    pub dtype: DType,
    /// The device address of the first element.
    pub base: u64,
    /// The number of elements.
    pub len: usize,
}

impl CudaSlice {
    /// The last address of the memory is a `u64`.
    pub open spec fn representable(self) -> bool {
        self.base + self.len * self.dtype.bytes() <= u64::MAX
    }

    /// Whether the last address of the memory is a `u64`.
    pub fn is_representable(&self) -> (representable: bool)
        ensures
            representable == self.representable(),
    {
        let size: u128 = self.dtype.size_in_bytes() as u128;
        let len: u128 = self.len as u128;
        proof {
            assert(len * size <= len * 8) by (nonlinear_arith)
                requires
                    size <= 8,
            ;
        }
        self.base as u128 + len * size <= u64::MAX as u128
    }
}

/// Where the elements of a tensor are kept.
#[derive(Clone, Copy, Debug, PartialEq, Eq, Structural)]
pub enum Storage {
    Cpu,
    Cuda(CudaSlice),
    Metal,
}

/// A tensor together with its storage.
pub struct StoredTensor {
    pub desc: TensorDesc,
    pub storage: Storage,
}

/// The mathematical content of a [`StoredTensor`].
#[verifier::ext_equal]
pub struct StoredView {
    pub tensor: TensorView,
    pub storage: Storage,
}

impl StoredView {
    /// The offset lies in the device memory of the tensor, whose last address is a
    /// `u64`.
    pub open spec fn addressable(self) -> bool {
        self.storage matches Storage::Cuda(slice) ==> {
            &&& self.tensor.start_offset <= slice.len
            &&& slice.representable()
        }
    }

    /// The device address of the first element of the view.
    pub open spec fn address(self) -> int {
        match self.storage {
            Storage::Cuda(slice) => slice.base + self.tensor.start_offset * slice.dtype.bytes(),
            _ => 0,
        }
    }
}

impl View for StoredTensor {
    type V = StoredView;

    open spec fn view(&self) -> StoredView {
        StoredView { tensor: self.desc@, storage: self.storage }
    }
}

impl StoredTensor {
    /// Describes a Candle tensor and where its elements are kept.
    pub fn of(tensor: &candle_core::Tensor, storage: Storage) -> (stored: StoredTensor)
        ensures
            stored@ == (StoredView { tensor: tensor_view(*tensor), storage }),
    {
        StoredTensor { desc: TensorDesc::of(tensor), storage }
    }

    /// Whether the offset lies in the device memory of the tensor, whose last address
    /// is a `u64`.
    pub fn is_addressable(&self) -> (addressable: bool)
        ensures
            addressable == self@.addressable(),
    {
        match self.storage {
            Storage::Cuda(slice) => self.desc.start_offset() <= slice.len
                && slice.is_representable(),
            _ => true,
        }
    }

    /// The device address of the first element of the view.
    pub(crate) fn element_address(&self, slice: CudaSlice) -> (address: u64)
        requires
            self@.addressable(),
            self@.storage == Storage::Cuda(slice),
        ensures
            address == self@.address(),
    {
        proof {
            let offset = self@.tensor.start_offset;
            let size = slice.dtype.bytes();
            assert(offset * size <= slice.len * size) by (nonlinear_arith)
                requires
                    offset <= slice.len,
            ;
        }
        let offset: u64 = self.desc.start_offset() as u64;
        let size: u64 = slice.dtype.size_in_bytes() as u64;
        slice.base + offset * size
    }
}

/// No axes make one element, and each further axis multiplies the count by its extent.
pub proof fn law_each_axis_multiplies_the_count(extents: Seq<usize>, extent: usize)
    ensures
        product(Seq::<usize>::empty()) == 1,
        product(extents.push(extent)) == product(extents) * extent,
{
    assert(extents.push(extent).drop_last() =~= extents);
}

/// The width of an element in bytes is the width that its type is named after.
pub proof fn law_elements_are_as_wide_as_their_names_say(dtype: DType)
    ensures
        dtype is U8 ==> dtype.bytes() * 8 == 8,
        dtype is BF16 || dtype is F16 ==> dtype.bytes() * 8 == 16,
        dtype is U32 || dtype is F32 ==> dtype.bytes() * 8 == 32,
        dtype is I64 || dtype is F64 ==> dtype.bytes() * 8 == 64,
{
}

/// Contiguity is asked of the axes with more than one index only: each has the element count
/// of the axes behind it as its stride. Where an answer is given, it is that one.
pub proof fn law_contiguous_axes_skip_the_elements_behind_them(view: TensorView)
    ensures
        view.contiguous() <==> {
            &&& view.stride.len() == view.dims.len()
            &&& forall|axis: int|
                0 <= axis < view.dims.len() && #[trigger] view.dims[axis] > 1 ==> view.stride[axis]
                    == product(view.dims.skip(axis + 1))
        },
        view.contiguity() matches Some(contiguous) ==> contiguous == view.contiguous(),
        (forall|axis: int|
            0 <= axis <= view.dims.len() ==> product(#[trigger] view.dims.skip(axis))
                <= usize::MAX) ==> view.contiguity() is Some,
        view.stride.len() != view.dims.len() ==> view.contiguity() == Some(false),
        forall|axis: int|
            0 <= axis < view.dims.len() && #[trigger] view.dims[axis] > 1 && view.stride[axis]
                != product(view.dims.skip(axis + 1)) && (forall|behind: int|
                axis < behind <= view.dims.len() ==> product(#[trigger] view.dims.skip(behind))
                    <= usize::MAX) ==> view.contiguity() == Some(false),
        view.contiguity() is None ==> exists|axis: int|
            0 <= axis < view.dims.len() && product(#[trigger] view.dims.skip(axis)) > usize::MAX,
        view.countable() <==> forall|axis: int|
            0 <= axis <= view.dims.len() ==> product(#[trigger] view.dims.take(axis))
                <= usize::MAX,
        view.elem_count() == product(view.dims),
{
    let plain = view.stride.len() == view.dims.len() && forall|axis: int|
        0 <= axis < view.dims.len() && #[trigger] view.dims[axis] > 1 ==> view.stride[axis]
            == product(view.dims.skip(axis + 1));
    if view.contiguous() {
        assert forall|axis: int|
            0 <= axis < view.dims.len() && #[trigger] view.dims[axis] > 1 implies view.stride[axis]
            == product(view.dims.skip(axis + 1)) by {
            assert(!order_broken_at(view.dims, view.stride, axis));
        }
    }
    if plain {
        assert forall|axis: int| 0 <= axis < view.dims.len() implies !#[trigger] order_broken_at(
            view.dims,
            view.stride,
            axis,
        ) by {
            assert(view.dims[axis] > 1 ==> view.stride[axis] == product(view.dims.skip(axis + 1)));
        }
    }
    assert forall|axis: int|
        0 <= axis < view.dims.len() && #[trigger] view.dims[axis] > 1 && view.stride[axis]
            != product(view.dims.skip(axis + 1)) && (forall|behind: int|
            axis < behind <= view.dims.len() ==> product(#[trigger] view.dims.skip(behind))
                <= usize::MAX) && view.stride.len() == view.dims.len() implies view.contiguity()
        == Some(false) by {
        assert(order_broken_at(view.dims, view.stride, axis));
        assert(trailing_fit(view.dims, axis + 1));
    }
    if view.contiguity() is None {
        assert(!trailing_fit(view.dims, 0));
        let axis = choose|axis: int|
            0 <= axis <= view.dims.len() && product(#[trigger] view.dims.skip(axis)) > usize::MAX;
        assert(view.dims.skip(view.dims.len() as int) =~= Seq::<usize>::empty());
        assert(axis < view.dims.len());
    }
}

/// A view into device memory starts its offset in elements, each as wide as the memory's
/// elements, behind the start of the memory.
pub proof fn law_addresses_count_elements_from_the_base(stored: StoredView, slice: CudaSlice)
    requires
        stored.storage == Storage::Cuda(slice),
    ensures
        stored.address() == slice.base + stored.tensor.start_offset * slice.dtype.bytes(),
        stored.addressable() <==> {
            &&& stored.tensor.start_offset <= slice.len
            &&& slice.base + slice.len * slice.dtype.bytes() <= u64::MAX
        },
{
}

} // verus!
