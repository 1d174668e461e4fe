//! Queues: submitting work to a device, and hearing that it is done.

use vstd::prelude::*;

use crate::conv::make_slice;
use crate::error::value_or_fatal;
use crate::native::{Userdata, WGPUFuture, WGPUQueueWorkDoneStatus};
use crate::outside::CommandBatch;

verus! {

/// The command buffers to submit, in order: the first `command_count` of the array. `commands`
/// cannot be reused.
pub fn wgpuQueueSubmit(command_count: usize, commands: &Vec<u64>) -> (command_buffers: CommandBatch)
    requires
        command_count <= commands@.len(),
    ensures
        crate::outside::batch_items(command_buffers) == commands@.take(command_count as int),
{
    let mut command_buffers = CommandBatch::new();
    let mut i: usize = 0;
    while i < command_count
        invariant
            i <= command_count,
            command_count <= commands@.len(),
            crate::outside::batch_items(command_buffers) == commands@.take(i as int),
        decreases command_count - i,
    {
        command_buffers.push(commands[i]);
        i = i + 1;
    }
    command_buffers
}

/// The numbers of the command buffers in a batch, in the order in which they are submitted.
pub fn submitted_ids(command_buffers: &CommandBatch) -> (numbers: &[u64])
    ensures
        numbers@ == crate::outside::batch_items(*command_buffers),
{
    command_buffers.as_slice()
}

/// A command buffer, by its number.
#[derive(Clone, Copy, Debug, PartialEq, Eq, Structural)]
pub struct CommandBuffer {
    pub id: u64,
    pub open: bool,
}

/// The command buffers among which the first few are open, the others as they were.
pub open spec fn opened(commands: Seq<CommandBuffer>, count: int) -> Seq<CommandBuffer> {
    commands.map(
        |i: int, command_buffer: CommandBuffer|
            if i < count {
                CommandBuffer { open: true, ..command_buffer }
            } else {
                command_buffer
            },
    )
}

pub open spec fn ids(commands: Seq<CommandBuffer>) -> Seq<u64> {
    commands.map_values(|command_buffer: CommandBuffer| command_buffer.id)
}

/// Opens a command buffer that is about to be submitted, and gives its number.
pub fn open_for_submission(command_buffer: &mut CommandBuffer) -> (id: u64)
    ensures
        *final(command_buffer) == (CommandBuffer { open: true, ..*old(command_buffer) }),
        id == old(command_buffer).id,
{
    command_buffer.open = true;
    command_buffer.id
}

/// Submits the first `command_count` command buffers of the array, in order, and gives the number
/// of the submission. The error is what to panic with.
pub fn wgpuQueueSubmitForIndex<
    X,
    E,
    Submit: FnOnce(&CommandBatch) -> Result<X, (X, E)>,
>(
    command_count: usize,
    commands: &mut Vec<CommandBuffer>,
    queue_submit: Submit,
) -> (submission_index: Result<X, String>)
    requires
        command_count <= old(commands)@.len(),
        forall|batch: CommandBatch|
            crate::outside::batch_items(batch) == ids(old(commands)@.take(command_count as int))
                ==> #[trigger] call_requires(queue_submit, (&batch,)),
    ensures
        final(commands)@ == opened(old(commands)@, command_count as int),
        final(commands)@.len() == old(commands)@.len(),
        forall|i: int|
            0 <= i < old(commands)@.len() ==> (#[trigger] final(commands)@[i]) == (CommandBuffer {
                id: old(commands)@[i].id,
                open: i < command_count || old(commands)@[i].open,
            }),
        exists|batch: CommandBatch, submitted: Result<X, (X, E)>| #[trigger]
            call_ensures(queue_submit, (&batch,), submitted) && crate::outside::batch_items(batch)
                == ids(old(commands)@.take(command_count as int)) && match submitted {
                Ok(index) => submission_index == Ok::<X, String>(index),
                Err(_) => submission_index matches Err(text) && text@
                    == crate::error::fatal_report("wgpuQueueSubmitForIndex"@),
            },
{
    let mut command_buffers = CommandBatch::new();
    let mut i: usize = 0;
    while i < command_count
        invariant
            i <= command_count,
            command_count <= old(commands)@.len(),
            commands@ == opened(old(commands)@, i as int),
            crate::outside::batch_items(command_buffers) == ids(old(commands)@.take(i as int)),
        decreases command_count - i,
    {
        let ghost before = commands@;
        let id = open_for_submission(&mut commands[i]);
        command_buffers.push(id);
        i = i + 1;
        assert(commands@ =~= opened(old(commands)@, i as int));
        assert(ids(old(commands)@.take(i as int)) =~= ids(old(commands)@.take(i - 1)).push(
            before[i - 1].id,
        ));
    }
    let submitted = match queue_submit(&command_buffers) {
        Ok(index) => Ok(index),
        Err(cause) => Err(cause.1),
    };
    value_or_fatal(submitted, "wgpuQueueSubmitForIndex")
}

/// A call to make once the work of a queue is done.
#[derive(Debug)]
pub struct WorkDoneCall<C> {
    pub callback: C,
    pub status: WGPUQueueWorkDoneStatus,
    pub userdata: Userdata,
}

/// Has the callback called once the work submitted so far is done. There is no future to wait on.
pub fn wgpuQueueOnSubmittedWorkDone<C, Register: FnOnce(WorkDoneCall<C>)>(
    callback: C,
    userdata: Userdata,
    on_submitted_work_done: Register,
) -> (future: WGPUFuture)
    requires
        call_requires(
            on_submitted_work_done,
            (WorkDoneCall { callback, status: WGPUQueueWorkDoneStatus::Success, userdata },),
        ),
    ensures
        call_ensures(
            on_submitted_work_done,
            (WorkDoneCall { callback, status: WGPUQueueWorkDoneStatus::Success, userdata },),
            (),
        ),
        future == WGPUFuture::null(),
{
    on_submitted_work_done(
        WorkDoneCall { callback, status: WGPUQueueWorkDoneStatus::Success, userdata },
    );
    WGPUFuture::null()
}

/// Writes the first `data_size` bytes of the data into a buffer.
pub fn wgpuQueueWriteBuffer<'a, H, Write: FnOnce(H, u64, &'a [u8])>(
    buffer: H,
    buffer_offset: u64,
    data: &'a [u8],
    data_size: usize,
    write_buffer: Write,
)
    requires
        data_size <= data@.len(),
        forall|bytes: &'a [u8]|
            bytes@ == data@.take(data_size as int) ==> #[trigger] call_requires(
                write_buffer,
                (buffer, buffer_offset, bytes),
            ),
    ensures
        exists|bytes: &'a [u8]|
            bytes@ == data@.take(data_size as int) && #[trigger] call_ensures(
                write_buffer,
                (buffer, buffer_offset, bytes),
                (),
            ),
{
    write_buffer(buffer, buffer_offset, make_slice(data, data_size))
}

/// Writes the first `data_size` bytes of the data into a texture: where, how the bytes are laid
/// out and how much is written is converted from native structs.
pub fn wgpuQueueWriteTexture<
    'a,
    D,
    T,
    N,
    L,
    M,
    X,
    Destination: Fn(D) -> T,
    Layout: Fn(N) -> L,
    Extent: Fn(M) -> X,
    Write: FnOnce(T, &'a [u8], L, X),
>(
    destination: D,
    data: &'a [u8],
    data_size: usize,
    data_layout: N,
    write_size: M,
    map_image_copy_texture: Destination,
    map_texture_data_layout: Layout,
    map_extent3d: Extent,
    write_texture: Write,
)
    requires
        data_size <= data@.len(),
        call_requires(map_image_copy_texture, (destination,)),
        call_requires(map_texture_data_layout, (data_layout,)),
        call_requires(map_extent3d, (write_size,)),
        forall|to: T, bytes: &'a [u8], layout: L, size: X|
            call_ensures(map_image_copy_texture, (destination,), to) && bytes@ == data@.take(
                data_size as int,
            ) && call_ensures(map_texture_data_layout, (data_layout,), layout) && call_ensures(
                map_extent3d,
                (write_size,),
                size,
            ) ==> #[trigger] call_requires(write_texture, (to, bytes, layout, size)),
    ensures
        exists|to: T, bytes: &'a [u8], layout: L, size: X|
            call_ensures(map_image_copy_texture, (destination,), to) && bytes@ == data@.take(
                data_size as int,
            ) && call_ensures(map_texture_data_layout, (data_layout,), layout) && call_ensures(
                map_extent3d,
                (write_size,),
                size,
            ) && #[trigger] call_ensures(write_texture, (to, bytes, layout, size), ()),
{
    write_texture(
        map_image_copy_texture(destination),
        make_slice(data, data_size),
        map_texture_data_layout(data_layout),
        map_extent3d(write_size),
    )
}

/// Submitting opens command buffers and changes nothing else about them; those that are not
/// submitted stay as they are, and submitting the same ones once more changes nothing.
pub proof fn law_submission_only_opens(commands: Seq<CommandBuffer>, count: int)
    requires
        0 <= count <= commands.len(),
    ensures
        ids(opened(commands, count)) == ids(commands),
        opened(commands, count).skip(count) == commands.skip(count),
        opened(opened(commands, count), count) == opened(commands, count),
{
    assert(ids(opened(commands, count)) =~= ids(commands));
    assert(opened(commands, count).skip(count) =~= commands.skip(count));
    assert(opened(opened(commands, count), count) =~= opened(commands, count));
}

/// Command buffers are submitted under their own numbers, each once and in their order.
pub proof fn law_ids_are_those_of_the_commands(commands: Seq<CommandBuffer>)
    ensures
        ids(commands).len() == commands.len(),
        forall|i: int| 0 <= i < commands.len() ==> #[trigger] ids(commands)[i] == commands[i].id,
{
}

/// Exactly the submitted command buffers are opened; one that was open before stays so.
pub proof fn law_submitted_commands_are_open(commands: Seq<CommandBuffer>, count: int, i: int)
    requires
        0 <= count <= commands.len(),
        0 <= i < commands.len(),
    ensures
        opened(commands, count).len() == commands.len(),
        opened(commands, count)[i].open <==> i < count || commands[i].open,
        opened(commands, count)[i].id == commands[i].id,
{
}

} // verus!
