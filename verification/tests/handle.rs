use rdkafka::client::NativeClient;
use rdkafka::handle::NativeHandle;

#[test]
fn test_handle_is_released_once() {
    let mut handle = NativeHandle::from_ptr(0x1000);
    assert_eq!(handle.ptr(), 0x1000);
    assert!(handle.is_live());
    assert_eq!(handle.release(), Some(0x1000));
    assert!(!handle.is_live());
    assert_eq!(handle.ptr(), 0x1000);
    assert_eq!(handle.release(), None);
    assert_eq!(handle.release(), None);
}

#[test]
fn test_one_destroy_per_handle_in_a_loop() {
    let mut destroyed: Vec<usize> = Vec::new();
    for ptr in 1..100usize {
        let mut client = NativeClient::from_ptr(ptr);
        for _ in 0..3 {
            if let Some(due) = client.release() {
                destroyed.push(due);
            }
        }
        assert!(!client.is_live());
    }
    assert_eq!(destroyed, (1..100usize).collect::<Vec<usize>>());
}

#[test]
fn test_native_client_from_ptr() {
    let client = NativeClient::from_ptr(0xdead0);
    assert_eq!(client.ptr(), 0xdead0);
    assert!(client.is_live());
}

#[test]
fn test_nothing_is_owned_of_a_null_address() {
    assert_eq!(NativeHandle::from_created(0), None);
    let mut handle = NativeHandle::from_created(0x2000).unwrap();
    assert!(handle.is_live());
    assert_eq!(handle.release(), Some(0x2000));
    assert_eq!(handle.release(), None);
}
