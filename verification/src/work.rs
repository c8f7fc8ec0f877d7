use vstd::prelude::*;
use vstd::std_specs::convert::FromSpecImpl;

verus! {

/// One, two or three dimensions of a work volume.
#[derive(Debug, Clone, Copy, PartialEq, Eq, Structural)]
pub enum Dims {
    One(usize),
    Two(usize, usize),
    Three(usize, usize, usize),
}

impl Dims {
    /// The number of dimensions that are specified.
    pub open spec fn dimension_count(self) -> nat {
        match self {
            Dims::One(_) => 1,
            Dims::Two(_, _) => 2,
            Dims::Three(_, _, _) => 3,
        }
    }

    /// The number of items in the volume: the product of the dimensions.
    pub open spec fn item_count(self) -> int {
        match self {
            Dims::One(x) => x as int,
            Dims::Two(x, y) => x * y,
            Dims::Three(x, y, z) => x * y * z,
        }
    }

    /// The dimensions as a volume, an unspecified dimension counting as 1.
    pub open spec fn volume(self) -> Seq<usize> {
        match self {
            Dims::One(x) => seq![x, 1, 1],
            Dims::Two(x, y) => seq![x, y, 1],
            Dims::Three(x, y, z) => seq![x, y, z],
        }
    }

    /// The dimensions as an offset, an unspecified dimension counting as 0.
    pub open spec fn offset(self) -> Seq<usize> {
        match self {
            Dims::One(x) => seq![x, 0, 0],
            Dims::Two(x, y) => seq![x, y, 0],
            Dims::Three(x, y, z) => seq![x, y, z],
        }
    }

    pub fn n_dimensions(&self) -> (n: usize)
        ensures
            n == self.dimension_count(),
    {
        match self {
            Dims::One(_) => 1,
            Dims::Two(_, _) => 2,
            Dims::Three(_, _, _) => 3,
        }
    }

    /// Whether the product of the dimensions, taken from left to right, never exceeds
    /// `usize::MAX`.
    pub open spec fn items_fit_usize(self) -> bool {
        match self {
            Dims::One(_) => true,
            Dims::Two(x, y) => x * y <= usize::MAX,
            Dims::Three(x, y, z) => x * y <= usize::MAX && x * y * z <= usize::MAX,
        }
    }

    pub fn n_items(&self) -> (n: usize)
        requires
            self.items_fit_usize(),
        ensures
            n == self.item_count(),
    {
        match self {
            Dims::One(x) => *x,
            Dims::Two(x, y) => *x * *y,
            Dims::Three(x, y, z) => *x * *y * *z,
        }
    }
}

impl From<usize> for Dims {
    fn from(x: usize) -> (d: Dims)
        ensures
            d == Dims::One(x),
    {
        Dims::One(x)
    }
}

impl FromSpecImpl<usize> for Dims {
    open spec fn obeys_from_spec() -> bool {
        true
    }

    open spec fn from_spec(v: usize) -> Dims {
        Dims::One(v)
    }
}

impl From<(usize, usize)> for Dims {
    fn from(xy: (usize, usize)) -> (d: Dims)
        ensures
            d == Dims::Two(xy.0, xy.1),
    {
        Dims::Two(xy.0, xy.1)
    }
}

impl FromSpecImpl<(usize, usize)> for Dims {
    open spec fn obeys_from_spec() -> bool {
        true
    }

    open spec fn from_spec(v: (usize, usize)) -> Dims {
        Dims::Two(v.0, v.1)
    }
}

impl From<(usize, usize, usize)> for Dims {
    fn from(xyz: (usize, usize, usize)) -> (d: Dims)
        ensures
            d == Dims::Three(xyz.0, xyz.1, xyz.2),
    {
        Dims::Three(xyz.0, xyz.1, xyz.2)
    }
}

impl FromSpecImpl<(usize, usize, usize)> for Dims {
    open spec fn obeys_from_spec() -> bool {
        true
    }

    open spec fn from_spec(v: (usize, usize, usize)) -> Dims {
        Dims::Three(v.0, v.1, v.2)
    }
}

/// A value that describes one, two or three dimensions: a length, a pair or triple of
/// lengths, or `Dims` itself.
pub trait IntoDims {
    /// The dimensions that the value describes.
    spec fn dims_of(self) -> Dims;

    fn into_dims(self) -> (d: Dims)
        ensures
            d == self.dims_of(),
    ;
}

impl IntoDims for Dims {
    open spec fn dims_of(self) -> Dims {
        self
    }

    fn into_dims(self) -> (d: Dims) {
        self
    }
}

impl IntoDims for usize {
    open spec fn dims_of(self) -> Dims {
        Dims::One(self)
    }

    fn into_dims(self) -> (d: Dims) {
        Dims::from(self)
    }
}

impl IntoDims for (usize, usize) {
    open spec fn dims_of(self) -> Dims {
        Dims::Two(self.0, self.1)
    }

    fn into_dims(self) -> (d: Dims) {
        Dims::from(self)
    }
}

impl IntoDims for (usize, usize, usize) {
    open spec fn dims_of(self) -> Dims {
        Dims::Three(self.0, self.1, self.2)
    }

    fn into_dims(self) -> (d: Dims) {
        Dims::from(self)
    }
}

/// Errors in the description of work.
#[derive(Debug, Clone, Eq, PartialEq, Structural)]
pub enum WorkError {
    /// Work does not allow a zero value for any of its specified dimensions.
    DimLengthCannotBeZero,
    /// Work dimensions must be 1, 2, or 3.
    InvalidDimsCount,
    /// Work size dimensions cannot have any zero values.
    InvalidWorkSize,
}

/// A 3D array whose three lengths are all non-zero.
#[derive(Debug, PartialEq, Eq, Clone)]
pub struct NonZeroVolume3DArray([usize; 3]);

impl View for NonZeroVolume3DArray {
    type V = Seq<usize>;

    closed spec fn view(&self) -> Seq<usize> {
        self.0@
    }
}

/// Whether none of the three lengths of a volume is zero.
pub open spec fn volume_is_non_zero(volume: Seq<usize>) -> bool {
    volume[0] != 0 && volume[1] != 0 && volume[2] != 0
}

impl NonZeroVolume3DArray {
    /// The three lengths, for handing to OpenCL.
    fn as_ptr(&self) -> (arr: [usize; 3])
        ensures
            arr@ == self@,
    {
        self.0
    }

    /// The volume that the dimensions describe, an unspecified dimension counting as 1;
    /// an error when one of the lengths is zero.
    fn from_dims(d: &Dims) -> (r: Result<NonZeroVolume3DArray, WorkError>)
        ensures
            volume_is_non_zero(d.volume()) ==> (r matches Ok(arr) && arr@ == d.volume()),
            !volume_is_non_zero(d.volume()) ==> r == Err::<NonZeroVolume3DArray, WorkError>(
                WorkError::InvalidWorkSize,
            ),
    {
        let work_size: [usize; 3] = match d {
            Dims::One(x) => [*x, 1, 1],
            Dims::Two(x, y) => [*x, *y, 1],
            Dims::Three(x, y, z) => [*x, *y, *z],
        };
        assert(work_size@ == d.volume());
        if work_size[0] == 0 || work_size[1] == 0 || work_size[2] == 0 {
            Err(WorkError::InvalidWorkSize)
        } else {
            Ok(NonZeroVolume3DArray(work_size))
        }
    }
}

/// The global work size of a kernel launch: a volume with no zero length.
#[derive(Debug, PartialEq, Eq, Clone)]
pub struct GlobalWorkSize(NonZeroVolume3DArray);

impl View for GlobalWorkSize {
    type V = Seq<usize>;

    closed spec fn view(&self) -> Seq<usize> {
        self.0@
    }
}

impl GlobalWorkSize {
    /// The global work size of the dimensions, an unspecified dimension counting as 1; an
    /// error when one of the lengths is zero.
    pub fn from_dims(dims: &Dims) -> (r: Result<GlobalWorkSize, WorkError>)
        ensures
            volume_is_non_zero(dims.volume()) ==> (r matches Ok(g) && g@ == dims.volume()),
            !volume_is_non_zero(dims.volume()) ==> r == Err::<GlobalWorkSize, WorkError>(
                WorkError::InvalidWorkSize,
            ),
    {
        let arr = NonZeroVolume3DArray::from_dims(dims)?;
        Ok(GlobalWorkSize(arr))
    }

    /// The three lengths that OpenCL is handed a pointer to.
    pub fn as_ptr(&self) -> (arr: [usize; 3])
        ensures
            arr@ == self@,
    {
        self.0.as_ptr()
    }
}

/// The local work size of a kernel launch: a volume with no zero length, or none at all
/// (`Null`), in which case OpenCL chooses it.
#[derive(Debug, PartialEq, Eq, Clone)]
pub enum LocalWorkSize {
    WorkSize(NonZeroVolume3DArray),
    Null,
}

impl LocalWorkSize {
    /// The local work size of the dimensions, an unspecified dimension counting as 1; an
    /// error when one of the lengths is zero.
    pub fn from_dims(dims: &Dims) -> (r: Result<LocalWorkSize, WorkError>)
        ensures
            volume_is_non_zero(dims.volume()) ==> (r matches Ok(LocalWorkSize::WorkSize(arr))
                && arr@ == dims.volume()),
            !volume_is_non_zero(dims.volume()) ==> r == Err::<LocalWorkSize, WorkError>(
                WorkError::InvalidWorkSize,
            ),
    {
        let arr = NonZeroVolume3DArray::from_dims(dims)?;
        Ok(LocalWorkSize::WorkSize(arr))
    }

    /// The three lengths that OpenCL is handed a pointer to, or `None` where OpenCL is
    /// handed the null pointer.
    pub fn as_ptr(&self) -> (arr: Option<[usize; 3]>)
        ensures
            match self {
                LocalWorkSize::WorkSize(a) => arr matches Some(v) && v@ == a@,
                LocalWorkSize::Null => arr is None,
            },
    {
        match self {
            LocalWorkSize::WorkSize(arr) => Some(arr.as_ptr()),
            LocalWorkSize::Null => None,
        }
    }
}

/// The offset of the global work of a kernel launch, or none at all (`Null`).
#[derive(Debug, PartialEq, Eq, Clone)]
pub enum GlobalWorkOffset {
    Offset([usize; 3]),
    Null,
}

impl GlobalWorkOffset {
    /// The offset of the dimensions, an unspecified dimension counting as 0.
    pub fn from_dims(d: &Dims) -> (o: GlobalWorkOffset)
        ensures
            o matches GlobalWorkOffset::Offset(arr) && arr@ == d.offset(),
    {
        let work_offset: [usize; 3] = match d {
            Dims::One(x) => [*x, 0, 0],
            Dims::Two(x, y) => [*x, *y, 0],
            Dims::Three(x, y, z) => [*x, *y, *z],
        };
        assert(work_offset@ == d.offset());
        GlobalWorkOffset::Offset(work_offset)
    }

    /// The three offsets that OpenCL is handed a pointer to, or `None` where OpenCL is
    /// handed the null pointer.
    pub fn as_ptr(&self) -> (arr: Option<[usize; 3]>)
        ensures
            match self {
                GlobalWorkOffset::Offset(a) => arr == Some(*a),
                GlobalWorkOffset::Null => arr is None,
            },
    {
        match self {
            GlobalWorkOffset::Offset(arr) => Some(*arr),
            GlobalWorkOffset::Null => None,
        }
    }
}

/// Work is a representation of 1, 2, or 3 dimensions.
///
/// For global_size none of the specified dimensions can be 0.
///
/// For global_offset any specified dimension can be any usize.
///
/// For local_size none of the specified dimensions can be 0.
#[derive(Debug, Clone, Copy, Eq, PartialEq, Structural)]
pub struct Work {
    pub global_size: Dims,
    pub global_offset: Option<Dims>,
    pub local_size: Option<Dims>,
}

impl Work {
    /// The work over the given global size, with no offset and no local size.
    pub open spec fn new_spec(global_size: Dims) -> Work {
        Work { global_size, global_offset: None, local_size: None }
    }

    /// Work over the given global size, with no offset and no local size. Nothing is
    /// checked here: a zero length is reported by `global_work_size`.
    pub fn new<D: IntoDims>(global_size: D) -> (w: Work)
        ensures
            w == Work::new_spec(global_size.dims_of()),
    {
        Work { global_size: global_size.into_dims(), global_offset: None, local_size: None }
    }

    /// The work with the given offset in place of any earlier one.
    pub fn with_global_offset<D: IntoDims>(self, offset: D) -> (w: Work)
        ensures
            w == (Work { global_offset: Some(offset.dims_of()), ..self }),
    {
        let mut work = self;
        work.global_offset = Some(offset.into_dims());
        work
    }

    /// The work with the given local size in place of any earlier one.
    pub fn with_local_size<D: IntoDims>(self, local_size: D) -> (w: Work)
        ensures
            w == (Work { local_size: Some(local_size.dims_of()), ..self }),
    {
        let mut work = self;
        work.local_size = Some(local_size.into_dims());
        work
    }

    /// The number of dimensions of the global work size.
    pub fn work_dims(&self) -> (n: u32)
        ensures
            n == self.global_size.dimension_count(),
    {
        self.global_size.n_dimensions() as u32
    }

    /// A 3D array that describes the volume of the work. A work's global work size must
    /// describe a non-zero volume: `[4, 3, 2]` is valid, `[3, 3, 0]` is not.
    pub fn global_work_size(&self) -> (r: Result<GlobalWorkSize, WorkError>)
        ensures
            volume_is_non_zero(self.global_size.volume()) ==> (r matches Ok(g) && g@
                == self.global_size.volume()),
            !volume_is_non_zero(self.global_size.volume()) ==> r == Err::<
                GlobalWorkSize,
                WorkError,
            >(WorkError::InvalidWorkSize),
    {
        GlobalWorkSize::from_dims(&self.global_size)
    }

    /// A 3D array that describes the offset of the work, or `Null` when none was given.
    /// Any offset is valid, `[0, 0, 0]` included.
    pub fn global_work_offset(&self) -> (o: GlobalWorkOffset)
        ensures
            match self.global_offset {
                Some(d) => o matches GlobalWorkOffset::Offset(arr) && arr@ == d.offset(),
                None => o == GlobalWorkOffset::Null,
            },
    {
        match &self.global_offset {
            Some(dims) => GlobalWorkOffset::from_dims(dims),
            None => GlobalWorkOffset::Null,
        }
    }

    /// The local work size of the work, `Null` when none was given; an error when one of
    /// the given lengths is zero.
    pub fn local_work_size(&self) -> (r: Result<LocalWorkSize, WorkError>)
        ensures
            match self.local_size {
                Some(d) => {
                    &&& volume_is_non_zero(d.volume()) ==> (r matches Ok(
                        LocalWorkSize::WorkSize(arr),
                    ) && arr@ == d.volume())
                    &&& !volume_is_non_zero(d.volume()) ==> r == Err::<
                        LocalWorkSize,
                        WorkError,
                    >(WorkError::InvalidWorkSize)
                },
                None => r == Ok::<LocalWorkSize, WorkError>(LocalWorkSize::Null),
            },
    {
        match &self.local_size {
            Some(dims) => LocalWorkSize::from_dims(dims),
            None => Ok(LocalWorkSize::Null),
        }
    }

    /// The number of work items: the product of the global dimensions.
    pub fn n_items(&self) -> (n: usize)
        requires
            self.global_size.items_fit_usize(),
        ensures
            n == self.global_size.item_count(),
    {
        self.global_size.n_items()
    }
}

/// Work over the given global size, with no offset and no local size.
impl<D: IntoDims> From<D> for Work {
    fn from(global_size: D) -> (w: Work)
        ensures
            w == Work::new_spec(global_size.dims_of()),
    {
        Work::new(global_size)
    }
}

impl<D: IntoDims> FromSpecImpl<D> for Work {
    open spec fn obeys_from_spec() -> bool {
        true
    }

    open spec fn from_spec(v: D) -> Work {
        Work::new_spec(v.dims_of())
    }
}

/// The global work size of dimensions keeps the given lengths in order and fills the
/// dimensions that are not given with 1; it is refused exactly when a given length is 0.
pub proof fn lemma_global_work_size_of_dims(d: Dims, r: Result<GlobalWorkSize, WorkError>)
    requires
        call_ensures(GlobalWorkSize::from_dims, (&d,), r),
    ensures
        match d {
            Dims::One(x) => if x != 0 {
                r matches Ok(a) && a@ == seq![x, 1usize, 1usize]
            } else {
                r matches Err(WorkError::InvalidWorkSize)
            },
            Dims::Two(x, y) => if x != 0 && y != 0 {
                r matches Ok(a) && a@ == seq![x, y, 1usize]
            } else {
                r matches Err(WorkError::InvalidWorkSize)
            },
            Dims::Three(x, y, z) => if x != 0 && y != 0 && z != 0 {
                r matches Ok(a) && a@ == seq![x, y, z]
            } else {
                r matches Err(WorkError::InvalidWorkSize)
            },
        },
{
}

/// The local work size of dimensions keeps the given lengths in order and fills the
/// dimensions that are not given with 1; it is refused exactly when a given length is 0.
pub proof fn lemma_local_work_size_of_dims(d: Dims, r: Result<LocalWorkSize, WorkError>)
    requires
        call_ensures(LocalWorkSize::from_dims, (&d,), r),
    ensures
        match d {
            Dims::One(x) => if x != 0 {
                r matches Ok(LocalWorkSize::WorkSize(a)) && a@ == seq![x, 1usize, 1usize]
            } else {
                r matches Err(WorkError::InvalidWorkSize)
            },
            Dims::Two(x, y) => if x != 0 && y != 0 {
                r matches Ok(LocalWorkSize::WorkSize(a)) && a@ == seq![x, y, 1usize]
            } else {
                r matches Err(WorkError::InvalidWorkSize)
            },
            Dims::Three(x, y, z) => if x != 0 && y != 0 && z != 0 {
                r matches Ok(LocalWorkSize::WorkSize(a)) && a@ == seq![x, y, z]
            } else {
                r matches Err(WorkError::InvalidWorkSize)
            },
        },
{
}

/// The global work size of a launch keeps the lengths of its global size in order and
/// fills the dimensions that are not given with 1; it is refused exactly when a given
/// length is 0. A launch of `n` items in one dimension, `n` not 0, has the size `[n, 1, 1]`.
pub proof fn lemma_work_global_work_size(w: Work, r: Result<GlobalWorkSize, WorkError>)
    requires
        call_ensures(Work::global_work_size, (&w,), r),
    ensures
        match w.global_size {
            Dims::One(x) => if x != 0 {
                r matches Ok(a) && a@ == seq![x, 1usize, 1usize]
            } else {
                r matches Err(WorkError::InvalidWorkSize)
            },
            Dims::Two(x, y) => if x != 0 && y != 0 {
                r matches Ok(a) && a@ == seq![x, y, 1usize]
            } else {
                r matches Err(WorkError::InvalidWorkSize)
            },
            Dims::Three(x, y, z) => if x != 0 && y != 0 && z != 0 {
                r matches Ok(a) && a@ == seq![x, y, z]
            } else {
                r matches Err(WorkError::InvalidWorkSize)
            },
        },
{
}

/// The local work size of a launch is `Null` when none is given; otherwise it keeps the
/// given lengths in order, fills the rest with 1, and is refused exactly when a given
/// length is 0.
pub proof fn lemma_work_local_work_size(w: Work, r: Result<LocalWorkSize, WorkError>)
    requires
        call_ensures(Work::local_work_size, (&w,), r),
    ensures
        w.local_size is None ==> r == Ok::<LocalWorkSize, WorkError>(LocalWorkSize::Null),
        w.local_size matches Some(d) ==> match d {
            Dims::One(x) => if x != 0 {
                r matches Ok(LocalWorkSize::WorkSize(a)) && a@ == seq![x, 1usize, 1usize]
            } else {
                r matches Err(WorkError::InvalidWorkSize)
            },
            Dims::Two(x, y) => if x != 0 && y != 0 {
                r matches Ok(LocalWorkSize::WorkSize(a)) && a@ == seq![x, y, 1usize]
            } else {
                r matches Err(WorkError::InvalidWorkSize)
            },
            Dims::Three(x, y, z) => if x != 0 && y != 0 && z != 0 {
                r matches Ok(LocalWorkSize::WorkSize(a)) && a@ == seq![x, y, z]
            } else {
                r matches Err(WorkError::InvalidWorkSize)
            },
        },
{
}

/// The offset of dimensions keeps the given offsets in order and fills the dimensions that
/// are not given with 0.
pub proof fn lemma_global_work_offset_of_dims(d: Dims, o: GlobalWorkOffset)
    requires
        call_ensures(GlobalWorkOffset::from_dims, (&d,), o),
    ensures
        match d {
            Dims::One(x) => o matches GlobalWorkOffset::Offset(a) && a@ == seq![x, 0usize, 0usize],
            Dims::Two(x, y) => o matches GlobalWorkOffset::Offset(a) && a@ == seq![x, y, 0usize],
            Dims::Three(x, y, z) => o matches GlobalWorkOffset::Offset(a) && a@ == seq![x, y, z],
        },
{
}

/// The offset of a launch is `Null` when none is given; otherwise it keeps the given
/// offsets in order and fills the dimensions that are not given with 0.
pub proof fn lemma_work_global_work_offset(w: Work, o: GlobalWorkOffset)
    requires
        call_ensures(Work::global_work_offset, (&w,), o),
    ensures
        w.global_offset is None ==> o == GlobalWorkOffset::Null,
        w.global_offset matches Some(d) ==> match d {
            Dims::One(x) => o matches GlobalWorkOffset::Offset(a) && a@ == seq![x, 0usize, 0usize],
            Dims::Two(x, y) => o matches GlobalWorkOffset::Offset(a) && a@ == seq![x, y, 0usize],
            Dims::Three(x, y, z) => o matches GlobalWorkOffset::Offset(a) && a@ == seq![x, y, z],
        },
{
}

} // verus!
