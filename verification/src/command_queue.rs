//! Bounded first-in, first-out buffers of commands waiting for the
//! controller and for the scheduler, kept in the `queue` crate's `Queue`.
use vstd::prelude::*;
use queue::Queue;
use crate::network::Error as NetworkError;
use crate::web_protocol::{ControllerCommand, SchedulerCommand};

verus! {

/// How many commands a buffer holds at most.
pub const COMMAND_BUFFER_CAPACITY: usize = 2;

#[verifier::external_type_specification]
#[verifier::external_body]
#[verifier::reject_recursive_types(T)]
pub struct ExQueue<T>(Queue<T>);

/// The controller commands a queue holds, oldest first.
pub uninterp spec fn controller_queue_items(q: Queue<ControllerCommand>) -> Seq<ControllerCommand>;

/// The capacity a queue of controller commands was given, if any.
pub uninterp spec fn controller_queue_capacity(q: Queue<ControllerCommand>) -> Option<usize>;

/// The scheduler commands a queue holds, oldest first.
pub uninterp spec fn scheduler_queue_items(q: Queue<SchedulerCommand>) -> Seq<SchedulerCommand>;

/// The capacity a queue of scheduler commands was given, if any.
pub uninterp spec fn scheduler_queue_capacity(q: Queue<SchedulerCommand>) -> Option<usize>;

/// Calls `Queue::<ControllerCommand>::with_capacity`.
///
/// Per the crate's source the queue starts empty with `Some(cap)` as its
/// capacity. The underlying `Vec::with_capacity` panics only for
/// allocations beyond `isize::MAX` bytes, which `requires` keeps far away.
#[verifier::external_body]
fn controller_queue_with_capacity(cap: usize) -> (r: Queue<ControllerCommand>)
    requires
        cap <= 4096,
    ensures
        controller_queue_items(r) == Seq::<ControllerCommand>::empty(),
        controller_queue_capacity(r) == Some(cap),
{
    Queue::with_capacity(cap)
}

/// Calls `Queue::<ControllerCommand>::queue`.
///
/// Per the crate's source, with a capacity set: when the queue already
/// holds that many items it returns `Err(())` and changes nothing;
/// otherwise it appends the item and returns the new length. The capacity
/// never changes.
#[verifier::external_body]
fn controller_queue_push(q: &mut Queue<ControllerCommand>, item: ControllerCommand) -> (r: Result<usize, ()>)
    requires
        controller_queue_capacity(*old(q)) is Some,
    ensures
        controller_queue_capacity(*final(q)) == controller_queue_capacity(*old(q)),
        controller_queue_items(*old(q)).len() >= controller_queue_capacity(*old(q))->0 ==> {
            &&& r is Err
            &&& controller_queue_items(*final(q)) == controller_queue_items(*old(q))
        },
        controller_queue_items(*old(q)).len() < controller_queue_capacity(*old(q))->0 ==> {
            &&& r == Ok::<usize, ()>((controller_queue_items(*old(q)).len() + 1) as usize)
            &&& controller_queue_items(*final(q)) == controller_queue_items(*old(q)).push(item)
        },
{
    q.queue(item)
}

/// Calls `Queue::<ControllerCommand>::dequeue`.
///
/// Per the crate's source: an empty queue gives `None` and stays empty;
/// otherwise the oldest item is removed and returned. The capacity never
/// changes.
#[verifier::external_body]
fn controller_queue_pop(q: &mut Queue<ControllerCommand>) -> (r: Option<ControllerCommand>)
    ensures
        controller_queue_capacity(*final(q)) == controller_queue_capacity(*old(q)),
        controller_queue_items(*old(q)).len() == 0 ==> {
            &&& r is None
            &&& controller_queue_items(*final(q)) == controller_queue_items(*old(q))
        },
        controller_queue_items(*old(q)).len() > 0 ==> {
            &&& r == Some(controller_queue_items(*old(q))[0])
            &&& controller_queue_items(*final(q)) == controller_queue_items(*old(q)).drop_first()
        },
{
    q.dequeue()
}

/// Calls `Queue::<SchedulerCommand>::with_capacity`; see
/// `controller_queue_with_capacity` for what the crate's source shows.
#[verifier::external_body]
fn scheduler_queue_with_capacity(cap: usize) -> (r: Queue<SchedulerCommand>)
    requires
        cap <= 4096,
    ensures
        scheduler_queue_items(r) == Seq::<SchedulerCommand>::empty(),
        scheduler_queue_capacity(r) == Some(cap),
{
    Queue::with_capacity(cap)
}

/// Calls `Queue::<SchedulerCommand>::queue`; see `controller_queue_push`
/// for what the crate's source shows.
#[verifier::external_body]
fn scheduler_queue_push(q: &mut Queue<SchedulerCommand>, item: SchedulerCommand) -> (r: Result<usize, ()>)
    requires
        scheduler_queue_capacity(*old(q)) is Some,
    ensures
        scheduler_queue_capacity(*final(q)) == scheduler_queue_capacity(*old(q)),
        scheduler_queue_items(*old(q)).len() >= scheduler_queue_capacity(*old(q))->0 ==> {
            &&& r is Err
            &&& scheduler_queue_items(*final(q)) == scheduler_queue_items(*old(q))
        },
        scheduler_queue_items(*old(q)).len() < scheduler_queue_capacity(*old(q))->0 ==> {
            &&& r == Ok::<usize, ()>((scheduler_queue_items(*old(q)).len() + 1) as usize)
            &&& scheduler_queue_items(*final(q)) == scheduler_queue_items(*old(q)).push(item)
        },
{
    q.queue(item)
}

/// Calls `Queue::<SchedulerCommand>::dequeue`; see `controller_queue_pop`
/// for what the crate's source shows.
#[verifier::external_body]
fn scheduler_queue_pop(q: &mut Queue<SchedulerCommand>) -> (r: Option<SchedulerCommand>)
    ensures
        scheduler_queue_capacity(*final(q)) == scheduler_queue_capacity(*old(q)),
        scheduler_queue_items(*old(q)).len() == 0 ==> {
            &&& r is None
            &&& scheduler_queue_items(*final(q)) == scheduler_queue_items(*old(q))
        },
        scheduler_queue_items(*old(q)).len() > 0 ==> {
            &&& r == Some(scheduler_queue_items(*old(q))[0])
            &&& scheduler_queue_items(*final(q)) == scheduler_queue_items(*old(q)).drop_first()
        },
{
    q.dequeue()
}

/// The buffer's contents after offering it `item`: the item joins the end
/// when there is room, and nothing changes when the buffer is full.
pub open spec fn spec_buffer_push<T>(items: Seq<T>, item: T) -> Seq<T> {
    if items.len() < COMMAND_BUFFER_CAPACITY {
        items.push(item)
    } else {
        items
    }
}

/// The outcome of offering a buffer an item: refused with `BufferFull`
/// exactly when the buffer already holds its capacity.
pub open spec fn spec_buffer_push_result<T>(items: Seq<T>) -> Result<(), NetworkError> {
    if items.len() < COMMAND_BUFFER_CAPACITY {
        Ok(())
    } else {
        Err(NetworkError::BufferFull)
    }
}

/// The outcome of taking from a buffer: its oldest item, or `BufferEmpty`.
pub open spec fn spec_buffer_pop_result<T>(items: Seq<T>) -> Result<T, NetworkError> {
    if items.len() > 0 {
        Ok(items[0])
    } else {
        Err(NetworkError::BufferEmpty)
    }
}

/// The buffer's contents after taking from it.
pub open spec fn spec_buffer_pop<T>(items: Seq<T>) -> Seq<T> {
    if items.len() > 0 {
        items.drop_first()
    } else {
        items
    }
}

/// The commands waiting for the blinds controller.
pub struct ControllerCommandBuffer {
    queue: Queue<ControllerCommand>,
}

impl View for ControllerCommandBuffer {
    type V = Seq<ControllerCommand>;

    closed spec fn view(&self) -> Seq<ControllerCommand> {
        controller_queue_items(self.queue)
    }
}

impl ControllerCommandBuffer {
    /// The queue keeps the buffer's capacity and never holds more.
    pub closed spec fn wf(&self) -> bool {
        &&& controller_queue_capacity(self.queue) == Some(COMMAND_BUFFER_CAPACITY)
        &&& controller_queue_items(self.queue).len() <= COMMAND_BUFFER_CAPACITY
    }

    /// An empty buffer.
    pub fn new() -> (r: ControllerCommandBuffer)
        ensures
            r.wf(),
            r@ == Seq::<ControllerCommand>::empty(),
    {
        ControllerCommandBuffer { queue: controller_queue_with_capacity(COMMAND_BUFFER_CAPACITY) }
    }

    /// Offers a command: it is appended when there is room; a full buffer
    /// refuses it with `BufferFull` and stays as it was.
    pub fn push_item(&mut self, item: ControllerCommand) -> (r: Result<(), NetworkError>)
        requires
            old(self).wf(),
        ensures
            final(self).wf(),
            final(self)@ == spec_buffer_push(old(self)@, item),
            r == spec_buffer_push_result(old(self)@),
    {
        match controller_queue_push(&mut self.queue, item) {
            Ok(_) => Ok(()),
            Err(()) => Err(NetworkError::BufferFull),
        }
    }

    /// Takes the oldest command; an empty buffer gives `BufferEmpty`.
    pub fn pop_item(&mut self) -> (r: Result<ControllerCommand, NetworkError>)
        requires
            old(self).wf(),
        ensures
            final(self).wf(),
            final(self)@ == spec_buffer_pop(old(self)@),
            r == spec_buffer_pop_result(old(self)@),
    {
        match controller_queue_pop(&mut self.queue) {
            Some(item) => Ok(item),
            None => Err(NetworkError::BufferEmpty),
        }
    }
}

/// The commands waiting for the scheduler.
pub struct SchedulerCommandBuffer {
    queue: Queue<SchedulerCommand>,
}

impl View for SchedulerCommandBuffer {
    type V = Seq<SchedulerCommand>;

    closed spec fn view(&self) -> Seq<SchedulerCommand> {
        scheduler_queue_items(self.queue)
    }
}

impl SchedulerCommandBuffer {
    /// The queue keeps the buffer's capacity and never holds more.
    pub closed spec fn wf(&self) -> bool {
        &&& scheduler_queue_capacity(self.queue) == Some(COMMAND_BUFFER_CAPACITY)
        &&& scheduler_queue_items(self.queue).len() <= COMMAND_BUFFER_CAPACITY
    }

    /// An empty buffer.
    pub fn new() -> (r: SchedulerCommandBuffer)
        ensures
            r.wf(),
            r@ == Seq::<SchedulerCommand>::empty(),
    {
        SchedulerCommandBuffer { queue: scheduler_queue_with_capacity(COMMAND_BUFFER_CAPACITY) }
    }

    /// Offers a command: it is appended when there is room; a full buffer
    /// refuses it with `BufferFull` and stays as it was.
    pub fn push_item(&mut self, item: SchedulerCommand) -> (r: Result<(), NetworkError>)
        requires
            old(self).wf(),
        ensures
            final(self).wf(),
            final(self)@ == spec_buffer_push(old(self)@, item),
            r == spec_buffer_push_result(old(self)@),
    {
        match scheduler_queue_push(&mut self.queue, item) {
            Ok(_) => Ok(()),
            Err(()) => Err(NetworkError::BufferFull),
        }
    }

    /// Takes the oldest command; an empty buffer gives `BufferEmpty`.
    pub fn pop_item(&mut self) -> (r: Result<SchedulerCommand, NetworkError>)
        requires
            old(self).wf(),
        ensures
            final(self).wf(),
            final(self)@ == spec_buffer_pop(old(self)@),
            r == spec_buffer_pop_result(old(self)@),
    {
        match scheduler_queue_pop(&mut self.queue) {
            Some(item) => Ok(item),
            None => Err(NetworkError::BufferEmpty),
        }
    }
}

} // verus!

verus! {

/// A command offered to an empty buffer is the next one taken out, and
/// taking it leaves the buffer empty again.
pub proof fn law_push_then_pop<T>(item: T)
    ensures
        spec_buffer_push_result(Seq::<T>::empty()) == Ok::<(), NetworkError>(()),
        spec_buffer_pop_result(spec_buffer_push(Seq::<T>::empty(), item)) == Ok::<T, NetworkError>(item),
        spec_buffer_pop(spec_buffer_push(Seq::<T>::empty(), item)) == Seq::<T>::empty(),
{
    assert(spec_buffer_pop(spec_buffer_push(Seq::<T>::empty(), item)) =~= Seq::<T>::empty());
}

/// Commands come out in the order they went in: after offering `first`
/// and then `second` to a buffer that held `items` (with room for both),
/// the buffer's contents are `items` followed by `first` and `second`,
/// and taking from it gives its oldest command.
pub proof fn law_first_in_first_out<T>(items: Seq<T>, first: T, second: T)
    requires
        items.len() + 2 <= COMMAND_BUFFER_CAPACITY,
    ensures
        spec_buffer_push(spec_buffer_push(items, first), second) == items.push(first).push(second),
        items.len() == 0 ==> spec_buffer_pop_result(spec_buffer_push(spec_buffer_push(items, first), second))
            == Ok::<T, NetworkError>(first),
        items.len() == 0 ==> spec_buffer_pop_result(spec_buffer_pop(spec_buffer_push(spec_buffer_push(items, first), second)))
            == Ok::<T, NetworkError>(second),
{
    if items.len() == 0 {
        let two = spec_buffer_push(spec_buffer_push(items, first), second);
        assert(spec_buffer_pop(two) =~= seq![second]);
    }
}

/// A full buffer refuses what it is offered with `BufferFull` and keeps
/// its contents.
pub proof fn law_full_buffer_refuses<T>(items: Seq<T>, item: T)
    requires
        items.len() >= COMMAND_BUFFER_CAPACITY,
    ensures
        spec_buffer_push_result(items) == Err::<(), NetworkError>(NetworkError::BufferFull),
        spec_buffer_push(items, item) == items,
{
}

/// Taking from an empty buffer gives `BufferEmpty` and changes nothing.
pub proof fn law_empty_buffer_gives_nothing<T>()
    ensures
        spec_buffer_pop_result(Seq::<T>::empty()) == Err::<T, NetworkError>(NetworkError::BufferEmpty),
        spec_buffer_pop(Seq::<T>::empty()) == Seq::<T>::empty(),
{
}

} // verus!
