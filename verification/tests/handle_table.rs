//! Handle tables, messages that travel by number, and their pipes.

use std::cell::Cell;
use std::rc::Rc;

use kimojio::errno::Errno;
use kimojio::errno::EPIPE;
use kimojio::handle_table::HandleTable;
use kimojio::handle_table::Index;
use kimojio::message_pipe::make_message_pipe;
use kimojio::message_pipe::make_message_pipe_oneway_sync;
use kimojio::message_pipe::IdMessagePipe;
use kimojio::message_pipe::MessagePipe;
use kimojio::message_pipe::MessagePipeReceiver;
use kimojio::message_pipe::MessagePipeSender;
use kimojio::message_pipe::PipeDirection;
use kimojio::pointer_buffer::id_from_buffer;
use kimojio::pointer_buffer::id_to_buffer;
use kimojio::pointer_buffer::is_announced;
use kimojio::pointer_buffer::pointer_from_buffer_ref;
use kimojio::pointer_buffer::pointer_to_buffer;
use kimojio::pointer_buffer::IdPointerMsg;
use kimojio::pointer_buffer::ZERO_ID;
use kimojio::time::Duration;

#[test]
fn test_insert_and_iter() {
    let mut handle_table = HandleTable::new();
    let values = vec![10, 20, 30, 40, 50];
    let indices = values
        .into_iter()
        .map(|v| handle_table.insert(v))
        .collect::<Vec<_>>();
    for (i, index) in indices.into_iter().enumerate() {
        let stored = handle_table.remove(index).unwrap();
        assert_eq!(stored, [10, 20, 30, 40, 50][i]);
    }
}

#[test]
fn test_remove() {
    let mut handle_table = HandleTable::new();
    let idx1 = handle_table.insert(100);
    let idx2 = handle_table.insert(200);
    assert_eq!(handle_table.remove(idx1), Some(100));
    assert_eq!(handle_table.remove(idx2), Some(200));
    assert_eq!(handle_table.remove(idx1), None);
}

#[test]
fn test_reuse_slot() {
    let mut handle_table = HandleTable::new();
    let idx1 = handle_table.insert(1);
    let idx2 = handle_table.insert(2);
    let idx3 = handle_table.insert(3);
    assert_eq!(handle_table.remove(idx2), Some(2));
    assert_eq!(handle_table.remove(idx2), None);
    let idx_new = handle_table.insert(4);
    assert_eq!(idx_new, idx2);
    assert_eq!(handle_table.remove(idx_new), Some(4));
    assert_eq!(handle_table.remove(idx3), Some(3));
    assert_eq!(handle_table.remove(idx2), None);
    assert_eq!(handle_table.remove(idx1), Some(1));
}

struct Dropper {
    drop_count: Rc<Cell<usize>>,
}

impl Drop for Dropper {
    fn drop(&mut self) {
        self.drop_count.set(self.drop_count.get() + 1);
    }
}

#[test]
fn test_drop() {
    let drop_count = Rc::new(Cell::new(0usize));

    {
        let mut handle_table = HandleTable::new();
        for _ in 0..100 {
            let drop_count = drop_count.clone();
            handle_table.insert(Dropper { drop_count });
        }
        for i in (0..100).step_by(10) {
            handle_table.remove(Index::new(i + 1).unwrap()).unwrap();
        }
        handle_table.insert(Dropper {
            drop_count: drop_count.clone(),
        });
    }

    assert_eq!(101, drop_count.get());
}

#[test]
fn test_new_and_default() {
    let handle_table1 = HandleTable::<i32>::new();
    let handle_table2 = HandleTable::<i32>::default();

    assert_eq!(handle_table1.len(), 0);
    assert_eq!(handle_table2.len(), 0);
    assert!(handle_table1.is_empty());
    assert!(handle_table2.is_empty());
}

#[test]
fn test_clear() {
    let mut handle_table = HandleTable::new();

    let idx1 = handle_table.insert("value1");
    let idx2 = handle_table.insert("value2");
    let idx3 = handle_table.insert("value3");

    assert_eq!(handle_table.len(), 3);
    assert!(!handle_table.is_empty());

    handle_table.clear();

    assert_eq!(handle_table.len(), 0);
    assert!(handle_table.is_empty());

    assert_eq!(handle_table.get(idx1), None);
    assert_eq!(handle_table.get(idx2), None);
    assert_eq!(handle_table.get(idx3), None);

    let new_idx = handle_table.insert("new_value");
    assert_eq!(handle_table.len(), 1);
    assert_eq!(handle_table.get(new_idx), Some(&"new_value"));
}

#[test]
fn test_len_and_is_empty() {
    let mut handle_table = HandleTable::new();

    assert_eq!(handle_table.len(), 0);
    assert!(handle_table.is_empty());

    let idx1 = handle_table.insert(10);
    assert_eq!(handle_table.len(), 1);
    assert!(!handle_table.is_empty());

    let idx2 = handle_table.insert(20);
    assert_eq!(handle_table.len(), 2);
    assert!(!handle_table.is_empty());

    let idx3 = handle_table.insert(30);
    assert_eq!(handle_table.len(), 3);
    assert!(!handle_table.is_empty());

    handle_table.remove(idx2);
    assert_eq!(handle_table.len(), 2);
    assert!(!handle_table.is_empty());

    handle_table.remove(idx1);
    assert_eq!(handle_table.len(), 1);
    assert!(!handle_table.is_empty());

    handle_table.remove(idx3);
    assert_eq!(handle_table.len(), 0);
    assert!(handle_table.is_empty());
}

#[test]
fn test_get() {
    let mut handle_table = HandleTable::new();

    let invalid_idx = Index::new(1).unwrap();
    assert_eq!(handle_table.get(invalid_idx), None);

    let idx1 = handle_table.insert("hello");
    let idx2 = handle_table.insert("world");

    assert_eq!(handle_table.get(idx1), Some(&"hello"));
    assert_eq!(handle_table.get(idx2), Some(&"world"));

    handle_table.remove(idx1);
    assert_eq!(handle_table.get(idx1), None);
    assert_eq!(handle_table.get(idx2), Some(&"world"));

    let out_of_bounds = Index::new(100).unwrap();
    assert_eq!(handle_table.get(out_of_bounds), None);
}

#[test]
fn test_insert_fn() {
    let mut handle_table = HandleTable::new();

    let idx1 = handle_table.insert_fn(|index| format!("value_at_{}", index.get()));
    assert_eq!(handle_table.get(idx1), Some(&"value_at_1".to_string()));

    let idx2 = handle_table.insert_fn(|index| format!("value_at_{}", index.get()));
    assert_eq!(handle_table.get(idx2), Some(&"value_at_2".to_string()));

    handle_table.remove(idx1);
    let idx3 = handle_table.insert_fn(|index| format!("reused_slot_{}", index.get()));

    assert_eq!(idx3, idx1);
    assert_eq!(handle_table.get(idx3), Some(&"reused_slot_1".to_string()));
}

#[test]
fn test_indexes() {
    let mut handle_table = HandleTable::new();

    let indexes: Vec<_> = handle_table.indexes();
    assert!(indexes.is_empty());

    let idx1 = handle_table.insert("a");
    let idx2 = handle_table.insert("b");
    let idx3 = handle_table.insert("c");

    let mut indexes: Vec<_> = handle_table.indexes();
    indexes.sort();
    assert_eq!(indexes, vec![idx1, idx2, idx3]);

    handle_table.remove(idx2);
    let mut indexes: Vec<_> = handle_table.indexes();
    indexes.sort();
    assert_eq!(indexes, vec![idx1, idx3]);

    let idx4 = handle_table.insert("d");
    assert_eq!(idx4, idx2);

    let mut indexes: Vec<_> = handle_table.indexes();
    indexes.sort();
    assert_eq!(indexes, vec![idx1, idx2, idx3]);
}

#[test]
fn test_iter() {
    let mut handle_table = HandleTable::new();

    let items: Vec<_> = handle_table.iter();
    assert!(items.is_empty());

    let idx1 = handle_table.insert(10);
    let idx2 = handle_table.insert(20);
    let idx3 = handle_table.insert(30);

    let mut items: Vec<_> = handle_table.iter();
    items.sort_by_key(|&(idx, _)| idx);
    assert_eq!(items, vec![(idx1, &10), (idx2, &20), (idx3, &30)]);

    handle_table.remove(idx2);
    let mut items: Vec<_> = handle_table.iter();
    items.sort_by_key(|&(idx, _)| idx);
    assert_eq!(items, vec![(idx1, &10), (idx3, &30)]);
}

#[test]
fn test_iter_mut() {
    let mut handle_table = HandleTable::new();

    let idx1 = handle_table.insert(10);
    let idx2 = handle_table.insert(20);
    let idx3 = handle_table.insert(30);

    handle_table.iter_mut(|_, value| value + 1);

    assert_eq!(handle_table.get(idx1), Some(&11));
    assert_eq!(handle_table.get(idx2), Some(&21));
    assert_eq!(handle_table.get(idx3), Some(&31));

    handle_table.remove(idx2);
    handle_table.iter_mut(|_, value| value * 2);

    assert_eq!(handle_table.get(idx1), Some(&22));
    assert_eq!(handle_table.get(idx3), Some(&62));
}

#[test]
fn updates_see_the_values_that_are_held() {
    let mut handle_table = HandleTable::new();
    let small = handle_table.insert(u8::MAX - 1);
    let large = handle_table.insert(u8::MAX);
    handle_table.remove(large);
    handle_table.iter_mut(|index, value| {
        assert_eq!(index, small);
        value + 1
    });
    assert_eq!(handle_table.get(small), Some(&u8::MAX));
    assert_eq!(handle_table.len(), 1);
}

#[test]
fn test_index_methods() {
    let idx = Index::new(42).unwrap();
    assert_eq!(idx.get(), 42);

    let idx_from = Index::new(123).unwrap();
    assert_eq!(idx_from.get(), 123);
    assert_eq!(Index::new(0), None);

    let idx1 = Index::new(1).unwrap();
    let idx2 = Index::new(2).unwrap();
    let idx1_copy = idx1;
    let idx1_clone = idx1;

    assert_eq!(idx1, idx1_copy);
    assert_eq!(idx1, idx1_clone);
    assert_ne!(idx1, idx2);
    assert!(idx1 < idx2);
    assert!(idx2 > idx1);

    assert_eq!(format!("{idx1:?}"), "Index(1)");
    let mut map = std::collections::HashMap::new();
    map.insert(idx1, "value1");
    map.insert(idx2, "value2");
    assert_eq!(map.get(&idx1), Some(&"value1"));
}

#[test]
fn test_edge_cases() {
    let mut handle_table = HandleTable::new();

    let fake_idx = Index::new(999).unwrap();
    assert_eq!(handle_table.remove(fake_idx), None);

    let idx = handle_table.insert("value");
    assert_eq!(handle_table.remove(idx), Some("value"));
    assert_eq!(handle_table.remove(idx), None);
    assert_eq!(handle_table.remove(idx), None);

    assert_eq!(handle_table.get(idx), None);

    let idx1 = handle_table.insert("1");
    let idx2 = handle_table.insert("2");
    let idx3 = handle_table.insert("3");

    handle_table.remove(idx1);
    handle_table.remove(idx3);

    let idx_new1 = handle_table.insert("4");
    assert_eq!(idx_new1, idx3);

    let idx_new2 = handle_table.insert("5");
    assert_eq!(idx_new2, idx1);

    assert_eq!(handle_table.get(idx2), Some(&"2"));
    assert_eq!(handle_table.get(idx_new1), Some(&"4"));
    assert_eq!(handle_table.get(idx_new2), Some(&"5"));
}

#[test]
fn test_id_converstion() {
    let id = 99;
    let buf = id_to_buffer(id);
    let id2 = id_from_buffer(buf);
    assert_eq!(id, id2);
}

#[test]
fn test_id_pointer_converstion() {
    let mut waiting = HandleTable::new();
    let id = 99;
    let mystr = String::from("mystr");
    let data = Box::new(mystr.clone());
    let buff = IdPointerMsg::from_id_box(id, data, &mut waiting);
    let (id2, data2) = IdPointerMsg(buff.0).into_id_box::<String>(&mut waiting);
    assert_eq!(id, id2);
    assert_eq!(*data2, mystr);
}

#[test]
fn identifiers_are_written_most_significant_byte_first() {
    assert_eq!(
        id_to_buffer(0x0102_0304_0506_0708),
        [1, 2, 3, 4, 5, 6, 7, 8]
    );
    assert_eq!(id_to_buffer(u64::MAX), [255; 8]);
    assert_eq!(id_from_buffer([255; 8]), u64::MAX);
    assert_eq!(id_to_buffer(ZERO_ID), [0; 8]);
    assert_eq!(id_from_buffer([0, 0, 0, 0, 0, 0, 1, 2]), 258);
}

#[test]
fn values_are_taken_once() {
    let mut waiting = HandleTable::new();
    let first = pointer_to_buffer(Box::new(1), &mut waiting);
    let second = pointer_to_buffer(Box::new(2), &mut waiting);
    assert!(is_announced(first, &waiting));
    assert_eq!(*pointer_from_buffer_ref(&first, &mut waiting), 1);
    assert!(!is_announced(first, &waiting));
    assert!(is_announced(second, &waiting));
    assert!(!is_announced([255; 8], &waiting));
    assert!(!is_announced([0; 8], &waiting));
}

#[test]
fn failed_sends_drop_their_message() {
    let drop_count = Rc::new(Cell::new(0usize));
    let mut waiting = HandleTable::new();
    let (sender, _receiver) = make_message_pipe::<i32, Dropper, ()>(3, 4);
    let message = Box::new(Dropper {
        drop_count: drop_count.clone(),
    });
    let (mut sending, bytes) = sender.send_message(message, &mut waiting);
    assert_eq!(sending.len(), 8);
    assert!(sending.must_complete());
    assert!(is_announced(bytes, &waiting));
    assert_eq!(
        sending.finish(Err(Errno::canceled()), &mut waiting),
        Err(Errno::canceled())
    );
    assert!(!sending.must_complete());
    assert_eq!(drop_count.get(), 1);
    assert!(waiting.is_empty());
}

#[test]
fn sent_messages_are_received() {
    let mut waiting = HandleTable::new();
    let (sender, receiver) = make_message_pipe::<i32, String, ()>(3, 4);
    let (mut sending, bytes) = sender.send_message(Box::new("hello".to_string()), &mut waiting);
    assert_eq!(sending.finish(Ok(8), &mut waiting), Ok(()));
    let mut receiving = receiver.recv_message_with_timeout(Some(Duration::from_secs(1)));
    assert_eq!(receiving.timeout(), Some(Duration::from_secs(1)));
    let message = receiving.finish(Ok(8), bytes, &mut waiting).unwrap();
    assert_eq!(*message, "hello");
    assert!(receiving.is_terminated());
    assert!(waiting.is_empty());
}

#[test]
fn receiving_from_a_gone_sender_fails() {
    let mut waiting = HandleTable::<Box<String>>::new();
    let receiver = MessagePipe::<i32, (), String>::new(4);
    let mut receiving = receiver.recv_message();
    assert_eq!(receiving.timeout(), None);
    assert!(!receiving.is_terminated());
    assert_eq!(
        receiving.finish(Ok(0), [0; 8], &mut waiting),
        Err(Errno::from_raw_os_error(EPIPE))
    );
    let mut receiving = receiver.recv_message();
    assert_eq!(
        receiving.finish(Err(Errno::time()), [0; 8], &mut waiting),
        Err(Errno::time())
    );
}

#[test]
fn abandoned_receives_release_consumed_messages() {
    let mut waiting = HandleTable::new();
    let (sender, receiver) = make_message_pipe::<i32, u32, ()>(3, 4);
    let (mut sending, bytes) = sender.send_message(Box::new(5), &mut waiting);
    sending.finish(Ok(8), &mut waiting).unwrap();
    assert_eq!(
        receiver.recv_message().abandon(None, [0; 8], &mut waiting),
        None
    );
    assert_eq!(
        receiver
            .recv_message()
            .abandon(Some(Err(Errno::canceled())), [0; 8], &mut waiting),
        None
    );
    assert_eq!(
        receiver
            .recv_message()
            .abandon(Some(Ok(8)), bytes, &mut waiting),
        Some(Box::new(5))
    );
    assert!(waiting.is_empty());
}

#[test]
fn one_way_pipes_shut_the_other_way() {
    assert_eq!(
        MessagePipeSender::<i32, u8>::unused_direction(),
        PipeDirection::Read
    );
    assert_eq!(
        MessagePipeReceiver::<i32, u8>::unused_direction(),
        PipeDirection::Write
    );
    let failed = make_message_pipe_oneway_sync::<i32, u8>(3, 4, Err(Errno::pipe()), Ok(()));
    assert_eq!(failed.err(), Some(Errno::pipe()));
    let failed = make_message_pipe_oneway_sync::<i32, u8>(3, 4, Ok(()), Err(Errno::time()));
    assert_eq!(failed.err(), Some(Errno::time()));
    let (sender, receiver) = make_message_pipe_oneway_sync::<i32, u8>(3, 4, Ok(()), Ok(())).unwrap();
    assert_eq!(sender.into_inner(), 3);
    assert_eq!(*receiver.inner(), 4);
}

#[test]
fn messages_carry_identifiers() {
    let mut waiting = HandleTable::new();
    let sender = IdMessagePipe::<i32, String, ()>::new(3);
    let receiver = IdMessagePipe::<i32, (), String>::new(4);
    let (mut sending, bytes) =
        sender.send_message(42, Box::new("id message".to_string()), &mut waiting);
    assert_eq!(sending.len(), 16);
    sending.finish(Ok(16), &mut waiting).unwrap();
    assert_eq!(bytes.get_id(), 42);
    let (id, message) = receiver
        .recv_message(Ok(16), bytes, &mut waiting)
        .unwrap();
    assert_eq!(id, 42);
    assert_eq!(*message, "id message");
    assert_eq!(
        receiver
            .recv_message(Ok(0), IdPointerMsg([0; 16]), &mut waiting)
            .err(),
        Some(Errno::pipe())
    );
    assert_eq!(sender.into_inner(), 3);
}

#[test]
fn numbers_never_exceed_the_most_values() {
    let mut table = HandleTable::new();
    let first = table.insert('a');
    let second = table.insert('b');
    let third = table.insert('c');
    table.remove(first);
    table.remove(third);
    assert_eq!(table.insert('d').get(), 3);
    assert_eq!(table.insert('e').get(), 1);
    assert_eq!(table.insert('f').get(), 4);
    table.remove(second);
    let numbers: Vec<usize> = table.indexes().iter().map(Index::get).collect();
    assert_eq!(numbers, vec![1, 3, 4]);
    let listed: Vec<usize> = table.iter().iter().map(|item| item.0.get()).collect();
    assert_eq!(listed, numbers);
    assert_eq!(table.len(), 3);
    table.clear();
    assert!(table.is_empty() && table.indexes().is_empty() && table.iter().is_empty());
    assert_eq!(table.insert('g').get(), 1);
}
