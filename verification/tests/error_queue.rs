use uart_usb_bridge::error_queue::{FaultCodeQueue, ERROR_QUEUE_CAPACITY};
use uart_usb_bridge::errors::DeviceError;
use uart_usb_bridge::task_handlers::error_handlers::{
    add_error_code, get_first_error_code, handle_error, has_errors,
};

#[test]
fn new_queue_has_no_errors() {
    let mut queue = FaultCodeQueue::new();
    assert!(!has_errors(&queue));
    assert!(queue.is_empty());
    assert_eq!(get_first_error_code(&mut queue), None);
}

#[test]
fn codes_come_out_in_the_order_they_went_in() {
    let mut queue = FaultCodeQueue::new();
    assert_eq!(add_error_code(&mut queue, 5), Ok(()));
    assert_eq!(add_error_code(&mut queue, 12), Ok(()));
    assert_eq!(add_error_code(&mut queue, 65535), Ok(()));
    assert!(has_errors(&queue));
    assert_eq!(get_first_error_code(&mut queue), Some(5));
    assert_eq!(get_first_error_code(&mut queue), Some(12));
    assert!(has_errors(&queue));
    assert_eq!(get_first_error_code(&mut queue), Some(65535));
    assert!(!has_errors(&queue));
    assert_eq!(get_first_error_code(&mut queue), None);
}

#[test]
fn queue_holds_256_codes_and_rejects_the_next() {
    assert_eq!(ERROR_QUEUE_CAPACITY, 256);
    let mut queue = FaultCodeQueue::new();
    for code in 0..256u16 {
        assert_eq!(add_error_code(&mut queue, code), Ok(()));
    }
    assert_eq!(add_error_code(&mut queue, 999), Err("Error queue is full"));
    assert_eq!(queue.enqueue(999), Err(999));
    for code in 0..256u16 {
        assert_eq!(get_first_error_code(&mut queue), Some(code));
    }
    assert_eq!(get_first_error_code(&mut queue), None);
}

#[test]
fn a_full_queue_takes_codes_again_after_a_dequeue() {
    let mut queue = FaultCodeQueue::new();
    for code in 0..256u16 {
        queue.enqueue(code).unwrap();
    }
    assert_eq!(queue.dequeue(), Some(0));
    assert_eq!(add_error_code(&mut queue, 1000), Ok(()));
    assert_eq!(add_error_code(&mut queue, 1001), Err("Error queue is full"));
    for code in 1..256u16 {
        assert_eq!(queue.dequeue(), Some(code));
    }
    assert_eq!(queue.dequeue(), Some(1000));
    assert_eq!(queue.dequeue(), None);
}

#[test]
fn handle_error_queues_the_code_of_the_fault() {
    let mut queue = FaultCodeQueue::new();
    handle_error(&mut queue, DeviceError::DmaError);
    handle_error(&mut queue, DeviceError::LedError);
    handle_error(&mut queue, DeviceError::UsbError);
    handle_error(&mut queue, DeviceError::BufferOverflow);
    handle_error(&mut queue, DeviceError::Timeout);
    assert_eq!(get_first_error_code(&mut queue), Some(1));
    assert_eq!(get_first_error_code(&mut queue), Some(4));
    assert_eq!(get_first_error_code(&mut queue), Some(0));
    assert_eq!(get_first_error_code(&mut queue), Some(2));
    assert_eq!(get_first_error_code(&mut queue), Some(3));
    assert_eq!(get_first_error_code(&mut queue), None);
}

#[test]
fn handle_error_drops_the_code_when_the_queue_is_full() {
    let mut queue = FaultCodeQueue::new();
    for _ in 0..256 {
        handle_error(&mut queue, DeviceError::UsbError);
    }
    handle_error(&mut queue, DeviceError::LedError);
    let mut count = 0;
    while let Some(code) = get_first_error_code(&mut queue) {
        assert_eq!(code, 0);
        count += 1;
    }
    assert_eq!(count, 256);
}
