use open_cl::cl_object::cl_event;
use open_cl::command_queue::CommandQueueOptions;
use open_cl::kernel::{KernelError, KernelOperation};
use open_cl::work::{Dims, Work};

type Op = KernelOperation<u32, cl_event>;

#[test]
fn kernel_operation_collects_args_in_order() {
    let mut op = Op::new("add_one").add_arg(3).add_arg(4);
    assert_eq!(op.name(), "add_one");
    assert_eq!(op.argc(), 2);
    assert_eq!(op.args(), &[3, 4]);
    op.mut_args()[0] = 9;
    assert_eq!(op.args(), &[9, 4]);
}

#[test]
fn kernel_operation_requires_work() {
    let op = Op::new("k");
    assert_eq!(op.work(), Err(KernelError::WorkIsRequired));
    let op = op.with_dims((2usize, 3usize));
    assert_eq!(op.work().unwrap().global_size, Dims::Two(2, 3));
    let op = op.with_work(Work::new(5usize));
    assert_eq!(op.work(), Ok(Work::new(5usize)));
}

#[test]
fn kernel_operation_queue_options() {
    let op = Op::new("k");
    assert!(op.command_queue_opts().is_none());
    let opts: CommandQueueOptions<cl_event> = CommandQueueOptions { is_blocking: false, offset: 2, waitlist: vec![] };
    let op = op.with_command_queue_options(opts);
    let got = op.command_queue_opts().unwrap();
    assert!(!got.is_blocking);
    assert_eq!(got.offset, 2);
    assert!(op.command_queue_opts.is_some());
}

#[test]
fn kernel_error_variants() {
    let e = KernelError::ReturningArgIndexOutOfRange(3, 2);
    assert_ne!(e, KernelError::KernelOpArgWasNotMem);
    assert_ne!(KernelError::KernelOpArgWasNotNum, KernelError::CStringInvalidKernelName("a\0b".to_string()));
}

#[test]
fn kernel_operation_with_dims_runs_over_that_work() {
    let op: KernelOperation<u8, cl_event> = KernelOperation::new("k");
    assert_eq!(op.work(), Err(KernelError::WorkIsRequired));
    let op = op.with_dims(Dims::One(4));
    assert_eq!(op.work(), Ok(Work::new(Dims::One(4))));
}
