use vstd::prelude::*;

use crate::command_queue::CommandQueueOptions;
use crate::work::{IntoDims, Work};

verus! {

/// An error related to a kernel.
#[derive(Debug, PartialEq, Eq, Clone)]
pub enum KernelError {
    /// The kernel name could not be represented as a C string.
    CStringInvalidKernelName(String),
    /// Work is required for a kernel operation.
    WorkIsRequired,
    /// The index of the returning argument (first) was out of range for the number of
    /// arguments (second).
    ReturningArgIndexOutOfRange(usize, usize),
    /// The kernel operation argument was not a memory object.
    KernelOpArgWasNotMem,
    /// The kernel operation argument was not a number.
    KernelOpArgWasNotNum,
}

/// The description of a kernel run: the kernel's name, its arguments in order, the work
/// to run it over and how to queue it.
pub struct KernelOperation<A, E> {
    name: String,
    args: Vec<A>,
    work: Option<Work>,
    pub command_queue_opts: Option<CommandQueueOptions<E>>,
}

impl<A, E> View for KernelOperation<A, E> {
    /// The name, the arguments, the work and the queue options of the operation.
    type V = (Seq<char>, Seq<A>, Option<Work>, Option<CommandQueueOptions<E>>);

    closed spec fn view(&self) -> (Seq<char>, Seq<A>, Option<Work>, Option<CommandQueueOptions<E>>) {
        (self.name@, self.args@, self.work, self.command_queue_opts)
    }
}

impl<A, E> KernelOperation<A, E> {
    /// An operation of the named kernel with no arguments, no work and no queue options.
    pub fn new(name: &str) -> (op: KernelOperation<A, E>)
        ensures
            op@ == (name@, Seq::<A>::empty(), None::<Work>, None::<CommandQueueOptions<E>>),
    {
        KernelOperation {
            name: name.to_owned(),
            args: Vec::new(),
            work: None,
            command_queue_opts: None,
        }
    }

    pub fn name(&self) -> (name: &str)
        ensures
            name@ == self@.0,
    {
        self.name.as_str()
    }

    /// A copy of the queue options, if any were given.
    pub fn command_queue_opts(&self) -> (opts: Option<CommandQueueOptions<E>>)
        where E: Clone,
        ensures
            opts is Some <==> self@.3 is Some,
            opts matches Some(o) ==> {
                let given = self@.3->Some_0;
                &&& o.is_blocking == given.is_blocking
                &&& o.offset == given.offset
                &&& o.waitlist@.len() == given.waitlist@.len()
                &&& forall|i: int|
                    0 <= i < given.waitlist@.len() ==> cloned::<E>(
                        #[trigger] given.waitlist@[i],
                        o.waitlist@[i],
                    )
            },
    {
        match &self.command_queue_opts {
            Some(opts) => Some(opts.clone()),
            None => None,
        }
    }

    pub fn args(&self) -> (args: &[A])
        ensures
            args@ == self@.1,
    {
        self.args.as_slice()
    }

    /// The arguments, open to change in place.
    pub fn mut_args(&mut self) -> (args: &mut [A])
        ensures
            args@ == old(self)@.1,
            final(self)@ == (old(self)@.0, final(args)@, old(self)@.2, old(self)@.3),
    {
        self.args.as_mut_slice()
    }

    /// The operation run over the work of the given global size.
    pub fn with_dims<D: IntoDims>(self, dims: D) -> (op: KernelOperation<A, E>)
        ensures
            op@ == (self@.0, self@.1, Some(Work::new_spec(dims.dims_of())), self@.3),
    {
        let mut op = self;
        op.work = Some(Work::new(dims));
        op
    }

    /// The operation run over the given work.
    pub fn with_work(self, work: Work) -> (op: KernelOperation<A, E>)
        ensures
            op@ == (self@.0, self@.1, Some(work), self@.3),
    {
        let mut op = self;
        op.work = Some(work);
        op
    }

    /// The operation with the argument added after the others.
    pub fn add_arg(self, arg: A) -> (op: KernelOperation<A, E>)
        ensures
            op@ == (self@.0, self@.1.push(arg), self@.2, self@.3),
    {
        let mut op = self;
        op.args.push(arg);
        op
    }

    pub fn with_command_queue_options(self, opts: CommandQueueOptions<E>) -> (op: KernelOperation<A, E>)
        ensures
            op@ == (self@.0, self@.1, self@.2, Some(opts)),
    {
        let mut op = self;
        op.command_queue_opts = Some(opts);
        op
    }

    /// The number of arguments.
    pub fn argc(&self) -> (n: usize)
        ensures
            n == self@.1.len(),
    {
        self.args.len()
    }

    /// The work of the operation; `WorkIsRequired` when none was given.
    pub fn work(&self) -> (r: Result<Work, KernelError>)
        ensures
            match self@.2 {
                Some(w) => r == Ok::<Work, KernelError>(w),
                None => r == Err::<Work, KernelError>(KernelError::WorkIsRequired),
            },
    {
        match self.work {
            Some(w) => Ok(w),
            None => Err(KernelError::WorkIsRequired),
        }
    }
}

} // verus!
