use open_cl::work::{Dims, GlobalWorkOffset, GlobalWorkSize, LocalWorkSize, Work, WorkError};

#[test]
fn dims_count_dimensions_and_items() {
    assert_eq!(Dims::One(7).n_dimensions(), 1);
    assert_eq!(Dims::Two(2, 3).n_dimensions(), 2);
    assert_eq!(Dims::Three(2, 3, 4).n_dimensions(), 3);
    assert_eq!(Dims::Three(2, 3, 4).n_items(), 24);
    assert_eq!(Dims::from((5usize, 6usize)), Dims::Two(5, 6));
}

#[test]
fn work_new_and_builders() {
    let w = Work::new(10usize)
        .with_global_offset((1usize, 2usize))
        .with_local_size(5usize);
    assert_eq!(w.global_size, Dims::One(10));
    assert_eq!(w.global_offset, Some(Dims::Two(1, 2)));
    assert_eq!(w.local_size, Some(Dims::One(5)));
    assert_eq!(w.work_dims(), 1);
    assert_eq!(w.n_items(), 10);
}

#[test]
fn global_work_size_fills_missing_dims_with_one() {
    let w = Work::new((4usize, 3usize));
    let g = w.global_work_size().unwrap();
    assert_eq!(g.as_ptr(), [4, 3, 1]);
    assert_eq!(GlobalWorkSize::from_dims(&Dims::Three(4, 3, 2)).unwrap().as_ptr(), [4, 3, 2]);
}

#[test]
fn global_work_size_refuses_zero_volume() {
    let w = Work::new((3usize, 3usize, 0usize));
    assert_eq!(w.global_work_size(), Err(WorkError::InvalidWorkSize));
}

#[test]
fn local_work_size_is_null_when_not_given() {
    let w = Work::new(3usize);
    let l = w.local_work_size().unwrap();
    assert_eq!(l, LocalWorkSize::Null);
    assert_eq!(l.as_ptr(), None);
    let w2 = w.with_local_size((0usize, 1usize));
    assert_eq!(w2.local_work_size(), Err(WorkError::InvalidWorkSize));
    let w3 = Work::new(3usize).with_local_size((2usize, 2usize));
    assert_eq!(w3.local_work_size().unwrap().as_ptr(), Some([2, 2, 1]));
}

#[test]
fn global_work_offset_fills_missing_dims_with_zero() {
    let w = Work::new(3usize);
    assert_eq!(w.global_work_offset(), GlobalWorkOffset::Null);
    assert_eq!(w.global_work_offset().as_ptr(), None);
    let w2 = w.with_global_offset(0usize);
    assert_eq!(w2.global_work_offset(), GlobalWorkOffset::Offset([0, 0, 0]));
    assert_eq!(GlobalWorkOffset::from_dims(&Dims::Two(7, 8)).as_ptr(), Some([7, 8, 0]));
}

#[test]
fn work_error_variants_are_distinct() {
    assert_ne!(WorkError::DimLengthCannotBeZero, WorkError::InvalidDimsCount);
    assert_ne!(WorkError::InvalidDimsCount, WorkError::InvalidWorkSize);
}

#[test]
fn work_converts_from_dimensions() {
    let w = Work::from(4usize);
    assert_eq!(w.global_size, Dims::One(4));
    assert_eq!(w.global_offset, None);
    assert_eq!(w.local_size, None);
    let w2: Work = (2usize, 3usize, 5usize).into();
    assert_eq!(w2.global_size, Dims::Three(2, 3, 5));
    assert_eq!(w2.n_items(), 30);
}

#[test]
fn work_takes_dims_as_they_are() {
    let w = Work::new(Dims::Three(4, 3, 2));
    assert_eq!(w.global_size, Dims::Three(4, 3, 2));
    assert_eq!(w.global_work_size().unwrap().as_ptr(), [4, 3, 2]);
    assert_eq!(
        Work::new(Dims::Three(3, 3, 0)).global_work_size(),
        Err(WorkError::InvalidWorkSize)
    );
    let w1 = Work::new(Dims::One(8));
    assert_eq!(w1.global_work_offset(), GlobalWorkOffset::Null);
    assert_eq!(
        w1.with_global_offset(Dims::Three(0, 0, 0)).global_work_offset(),
        GlobalWorkOffset::Offset([0, 0, 0])
    );
    assert_eq!(w1.with_local_size(Dims::Two(2, 2)).local_size, Some(Dims::Two(2, 2)));
}
