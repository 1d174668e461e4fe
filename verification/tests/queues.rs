use wgpu_native::native::{Userdata, WGPUFuture, WGPUQueueWorkDoneStatus};
use wgpu_native::outside::CommandBatch;
use wgpu_native::queue::{CommandBuffer, WorkDoneCall};
use wgpu_native::{
    open_for_submission, submitted_ids, wgpuQueueOnSubmittedWorkDone, wgpuQueueSubmit, wgpuQueueSubmitForIndex,
    wgpuQueueWriteBuffer, wgpuQueueWriteTexture,
};

fn buffers() -> Vec<CommandBuffer> {
    vec![
        CommandBuffer { id: 7, open: false },
        CommandBuffer { id: 5, open: true },
        CommandBuffer { id: 6, open: false },
    ]
}

#[test]
fn command_buffers_are_submitted_in_order() {
    let commands: Vec<u64> = vec![9, 3, 5, 4, 8, 1];
    assert_eq!(submitted_ids(&wgpuQueueSubmit(2, &commands)), [9, 3].as_slice());
    assert_eq!(submitted_ids(&wgpuQueueSubmit(6, &commands)), commands.as_slice());
    assert!(submitted_ids(&wgpuQueueSubmit(0, &commands)).is_empty());
}

#[test]
fn submission_opens_and_numbers() {
    let mut commands = buffers();
    let index = wgpuQueueSubmitForIndex(
        2,
        &mut commands,
        |batch: &CommandBatch| -> Result<u64, (u64, ())> {
            assert_eq!(submitted_ids(batch), [7, 5].as_slice());
            Ok(1000)
        },
    );
    assert_eq!(index, Ok(1000));
    assert_eq!(
        commands,
        vec![
            CommandBuffer { id: 7, open: true },
            CommandBuffer { id: 5, open: true },
            CommandBuffer { id: 6, open: false },
        ]
    );
}

#[test]
fn failed_submission_is_fatal() {
    let mut commands = buffers();
    let index = wgpuQueueSubmitForIndex(
        3,
        &mut commands,
        |_: &CommandBatch| -> Result<u64, (u64, &str)> { Err((3, "lost")) },
    );
    assert_eq!(
        index,
        Err("Error in wgpuQueueSubmitForIndex: Validation Error\n\nCaused by:\n".to_string())
    );
    assert!(commands.iter().all(|c| c.open));
}

#[test]
fn resubmission_changes_nothing() {
    let mut commands = buffers();
    wgpuQueueSubmitForIndex(1, &mut commands, |_: &CommandBatch| -> Result<u8, (u8, ())> { Ok(1) })
        .unwrap();
    let once = commands.clone();
    wgpuQueueSubmitForIndex(1, &mut commands, |_: &CommandBatch| -> Result<u8, (u8, ())> { Ok(2) })
        .unwrap();
    assert_eq!(commands, once);
}

#[test]
fn finished_work_is_reported_as_success() {
    let userdata = Userdata { userdata1: 3, userdata2: 4 };
    let mut registered = None;
    let future = wgpuQueueOnSubmittedWorkDone("done", userdata, |call: WorkDoneCall<&str>| {
        registered = Some((call.callback, call.status, call.userdata));
    });
    assert_eq!(future, WGPUFuture::null());
    assert_eq!(registered, Some(("done", WGPUQueueWorkDoneStatus::Success, userdata)));
}

#[test]
fn buffer_writes_take_the_counted_bytes() {
    let data = [1u8, 2, 3, 4];
    let mut written = None;
    wgpuQueueWriteBuffer("buffer", 16, &data, 3, |buffer: &str, offset: u64, bytes: &[u8]| {
        written = Some((buffer.to_string(), offset, bytes.to_vec()));
    });
    assert_eq!(written, Some(("buffer".to_string(), 16, vec![1, 2, 3])));
}

#[test]
fn texture_writes_convert_their_structs() {
    let data = [1u8, 2, 3, 4];
    let mut written = None;
    wgpuQueueWriteTexture(
        1u8,
        &data,
        2,
        2u16,
        3u32,
        |d: u8| d as u64 * 10,
        |l: u16| l as u64 * 100,
        |x: u32| x as u64 * 1000,
        |to: u64, bytes: &[u8], layout: u64, size: u64| {
            written = Some((to, bytes.to_vec(), layout, size));
        },
    );
    assert_eq!(written, Some((10, vec![1, 2], 200, 3000)));
}

#[test]
fn command_buffer_is_opened_under_its_number() {
    let mut command_buffer = CommandBuffer { id: 11, open: false };
    assert_eq!(open_for_submission(&mut command_buffer), 11);
    assert_eq!(command_buffer, CommandBuffer { id: 11, open: true });
}
