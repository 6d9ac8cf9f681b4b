use libsolv::queue::Queue;

#[test]
fn init_and_free() {
    let mut queue: Queue = Default::default();
    queue.push2(1, 2);
    println!("start: {:?}", queue);

    assert!(!queue.as_ref().is_empty());
    assert_eq!(queue.as_ref(), &[1, 2]);

    assert_eq!(1, queue.shift());
    println!("shift: {:?}", queue);

    queue.clear();
    println!("empty: {:?}", queue);
    assert_eq!(queue.len(), 0);
}

fn queue_of(ids: &[i32]) -> Queue {
    let mut q = Queue::new();
    for &id in ids {
        q.push(id);
    }
    q
}

#[test]
fn new_queue_is_empty() {
    let q = Queue::new();
    assert_eq!(q.len(), 0);
    assert_eq!(q.as_ref(), &[] as &[i32]);
}

#[test]
fn shift_and_pop_on_empty_give_zero() {
    let mut q = Queue::new();
    assert_eq!(q.shift(), 0);
    assert_eq!(q.pop(), 0);
    assert_eq!(q.len(), 0);
}

#[test]
fn push_then_pop_gives_back_the_id() {
    let mut q = queue_of(&[4, 5]);
    q.push(9);
    assert_eq!(q.pop(), 9);
    assert_eq!(q.as_ref(), &[4, 5]);
}

#[test]
fn unshift_then_shift_gives_back_the_id() {
    let mut q = queue_of(&[4, 5]);
    q.unshift(7);
    assert_eq!(q.as_ref(), &[7, 4, 5]);
    assert_eq!(q.shift(), 7);
    assert_eq!(q.as_ref(), &[4, 5]);
}

#[test]
fn queue_is_first_in_first_out() {
    let mut q = queue_of(&[1]);
    q.push(2);
    q.push(3);
    assert_eq!(q.shift(), 1);
    assert_eq!(q.shift(), 2);
    assert_eq!(q.shift(), 3);
    assert_eq!(q.shift(), 0);
}

#[test]
fn pushunique_skips_ids_already_there() {
    let mut q = queue_of(&[3, 8]);
    q.pushunique(8);
    assert_eq!(q.as_ref(), &[3, 8]);
    q.pushunique(5);
    assert_eq!(q.as_ref(), &[3, 8, 5]);
    q.pushunique(5);
    assert_eq!(q.as_ref(), &[3, 8, 5]);
}

#[test]
fn truncate_keeps_a_prefix() {
    let mut q = queue_of(&[1, 2, 3, 4]);
    q.truncate(6);
    assert_eq!(q.as_ref(), &[1, 2, 3, 4]);
    q.truncate(2);
    assert_eq!(q.as_ref(), &[1, 2]);
    q.truncate(0);
    assert_eq!(q.len(), 0);
}

#[test]
fn insert_in_the_middle_and_past_the_end() {
    let mut q = queue_of(&[1, 2, 3]);
    q.insert(1, 9);
    assert_eq!(q.as_ref(), &[1, 9, 2, 3]);
    q.insert(10, 7);
    assert_eq!(q.as_ref(), &[1, 9, 2, 3, 7]);
    q.insert(0, 6);
    assert_eq!(q.as_ref(), &[6, 1, 9, 2, 3, 7]);
}

#[test]
fn insert2_puts_both_in_order() {
    let mut q = queue_of(&[1, 2, 3]);
    q.insert2(1, 8, 9);
    assert_eq!(q.as_ref(), &[1, 8, 9, 2, 3]);
    q.insert2(5, 4, 5);
    assert_eq!(q.as_ref(), &[1, 8, 9, 2, 3, 4, 5]);
}

#[test]
fn insertn_puts_all_in_order_and_leaves_the_source() {
    let mut q = queue_of(&[1, 2, 3]);
    let mut more = [7, 8, 9];
    q.insertn(2, &mut more);
    assert_eq!(q.as_ref(), &[1, 2, 7, 8, 9, 3]);
    assert_eq!(more, [7, 8, 9]);
    q.insertn(100, &mut [5]);
    assert_eq!(q.as_ref(), &[1, 2, 7, 8, 9, 3, 5]);
    q.insertn(0, &mut []);
    assert_eq!(q.as_ref(), &[1, 2, 7, 8, 9, 3, 5]);
}

#[test]
fn delete_variants() {
    let mut q = queue_of(&[1, 2, 3, 4, 5, 6]);
    q.delete(1);
    assert_eq!(q.as_ref(), &[1, 3, 4, 5, 6]);
    q.delete(10);
    assert_eq!(q.as_ref(), &[1, 3, 4, 5, 6]);
    q.delete2(1);
    assert_eq!(q.as_ref(), &[1, 5, 6]);
    q.delete2(2);
    assert_eq!(q.as_ref(), &[1, 5]);
    q.deleten(0, 0);
    assert_eq!(q.as_ref(), &[1, 5]);
    q.deleten(0, -3);
    assert_eq!(q.as_ref(), &[1, 5]);
    q.deleten(0, 10);
    assert_eq!(q.len(), 0);
}

#[test]
fn insert_then_delete_restores() {
    let mut q = queue_of(&[1, 2, 3]);
    q.insert(2, 42);
    q.delete(2);
    assert_eq!(q.as_ref(), &[1, 2, 3]);
    q.insertn(1, &mut [7, 7, 7]);
    q.deleten(1, 3);
    assert_eq!(q.as_ref(), &[1, 2, 3]);
}

#[test]
fn set_changes_one_id_in_place() {
    let mut q = queue_of(&[1, 2, 3]);
    q.set(1, 20);
    assert_eq!(q.as_ref(), &[1, 20, 3]);
    q.set(2, -5);
    assert_eq!(q.as_ref(), &[1, 20, -5]);
}
