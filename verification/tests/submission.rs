use std::rc::Rc;

use caldeira::vulkan::flags;
use caldeira::vulkan::structs::Extent3D;
use caldeira::vulkan::{
    CommandPool, ExecutableCommandBuffer, Queue, QueueFamily, QueueFamilyProperties,
    QueueSubmission, QueueSubmissionBuilder, SubmitInfo,
};

fn family(index: usize) -> QueueFamily {
    QueueFamily::new(
        QueueFamilyProperties {
            queue_flags: flags::QUEUE_COMPUTE,
            queue_count: 2,
            timestamp_valid_bits: 0,
            min_image_transfer_granularity: Extent3D { width: 1, height: 1, depth: 1 },
        },
        index,
        1,
    )
}

fn executable(family_index: usize, handle: u64) -> ExecutableCommandBuffer {
    let pool = Rc::new(CommandPool::new(&family(family_index), 30));
    pool.allocate_command_buffers(0, vec![handle]).remove(0).begin(0).end()
}

#[test]
fn an_empty_builder_builds_an_empty_batch() {
    let batch = QueueSubmission::builder().build();
    assert!(batch.wait_semaphores().is_empty());
    assert!(batch.wait_dst_stage_masks().is_empty());
    assert!(batch.command_buffers().is_empty());
    assert!(batch.queue_family_indices().is_empty());
    assert!(batch.signal_semaphores().is_empty());
    let other = QueueSubmissionBuilder::new().build();
    assert!(other.command_buffers().is_empty());
}

#[test]
fn wait_semaphores_go_in_with_their_stage_masks() {
    let first = executable(3, 41);
    let second = executable(3, 42);
    let third = executable(3, 43);
    let mut builder = QueueSubmission::builder()
        .with_wait_semaphore(10, 0x1)
        .with_command_buffer(&first)
        .with_wait_semaphores(vec![(11, 0x2), (12, 0x4)])
        .with_command_buffers(vec![&second, &third])
        .with_signal_semaphores(vec![20, 21]);
    builder.with_signal_semaphore(22).with_signal_semaphore(23);
    let batch = builder.build();
    assert_eq!(batch.wait_semaphores(), &[10, 11, 12]);
    assert_eq!(batch.wait_dst_stage_masks(), &[0x1, 0x2, 0x4]);
    assert_eq!(batch.command_buffers(), &[41, 42, 43]);
    assert_eq!(batch.queue_family_indices(), &[3, 3, 3]);
    assert_eq!(batch.signal_semaphores(), &[20, 21, 22, 23]);
    assert_eq!(batch.wait_semaphores().len(), batch.wait_dst_stage_masks().len());
}

#[test]
fn submit_hands_over_each_batch_in_order() {
    let first = executable(3, 41);
    let second = executable(3, 42);
    let batches = [
        QueueSubmission::builder()
            .with_wait_semaphore(10, 0x1000)
            .with_command_buffer(&first)
            .with_signal_semaphores(vec![20])
            .build(),
        QueueSubmission::builder().with_command_buffer(&second).build(),
    ];
    let mut queue = Queue::new(900, 1, family(3));
    assert!(queue.accepts(&batches));
    let call = queue.submit(&batches, Some(77));
    assert_eq!(call.queue, 900);
    assert_eq!(call.fence, 77);
    assert_eq!(
        call.submits,
        vec![
            SubmitInfo {
                wait_semaphores: vec![10],
                wait_dst_stage_mask: vec![0x1000],
                command_buffers: vec![41],
                signal_semaphores: vec![20],
            },
            SubmitInfo {
                wait_semaphores: vec![],
                wait_dst_stage_mask: vec![],
                command_buffers: vec![42],
                signal_semaphores: vec![],
            },
        ]
    );
    assert_eq!(queue, Queue::new(900, 1, family(3)));
}

#[test]
fn submit_without_a_fence_names_the_null_handle() {
    let mut queue = Queue::new(900, 0, family(0));
    let call = queue.submit(&[], None);
    assert_eq!(call.fence, 0);
    assert_eq!(call.queue, 900);
    assert!(call.submits.is_empty());
    assert!(queue.accepts(&[]));
}

#[test]
fn a_queue_takes_only_buffers_of_its_own_family() {
    let own = executable(3, 41);
    let foreign = executable(4, 42);
    let queue = Queue::new(900, 0, family(3));
    let mixed = [
        QueueSubmission::builder().with_command_buffer(&own).build(),
        QueueSubmission::builder().with_command_buffer(&own).with_command_buffer(&foreign).build(),
    ];
    assert!(!queue.accepts(&mixed));
    assert!(queue.accepts(&mixed[..1]));
    assert!(Queue::new(901, 0, family(4)).accepts(&[QueueSubmission::builder()
        .with_command_buffer(&foreign)
        .build()]));
}

#[test]
fn a_queue_knows_its_family() {
    let queue = Queue::new(900, 1, family(3));
    assert_eq!(queue.queue_family_index(), 3);
    assert_eq!(queue.family(), &family(3));
    assert_eq!(queue.queue_index, 1);
    assert!(queue.family().support_compute());
}
