use consciousness_kernel::timing::window::BoundedFifo;

fn contents<const N: usize>(fifo: &BoundedFifo<u32, N>) -> Vec<u32> {
    let mut items = Vec::new();
    let mut index = 0;
    while let Some(item) = fifo.get(index) {
        items.push(*item);
        index += 1;
    }
    items
}

#[test]
fn new_window_is_empty() {
    let fifo: BoundedFifo<u32, 3> = BoundedFifo::new();
    assert_eq!(fifo.len(), 0);
    assert!(fifo.is_empty());
    assert_eq!(fifo.capacity(), 3);
    assert_eq!(fifo.get(0), None);
}

#[test]
fn window_fills_in_order_of_arrival() {
    let mut fifo: BoundedFifo<u32, 3> = BoundedFifo::new();
    fifo.push(7);
    fifo.push(5);
    assert_eq!(contents(&fifo), vec![7, 5]);
    assert_eq!(fifo.len(), 2);
    assert!(!fifo.is_empty());
    assert_eq!(fifo.get(1), Some(&5));
    assert_eq!(fifo.get(2), None);
}

#[test]
fn one_more_than_capacity_drops_the_oldest() {
    let mut fifo: BoundedFifo<u32, 3> = BoundedFifo::new();
    for value in 1..=4 {
        fifo.push(value);
    }
    assert_eq!(contents(&fifo), vec![2, 3, 4]);
    assert_eq!(fifo.len(), 3);
}

#[test]
fn window_keeps_the_most_recent_of_many() {
    let mut fifo: BoundedFifo<u32, 100> = BoundedFifo::new();
    for value in 0..250 {
        fifo.push(value);
        assert!(fifo.len() <= 100);
    }
    let expected: Vec<u32> = (150..250).collect();
    assert_eq!(contents(&fifo), expected);
}

#[test]
fn window_of_capacity_one_holds_the_last() {
    let mut fifo: BoundedFifo<u32, 1> = BoundedFifo::new();
    fifo.push(1);
    fifo.push(2);
    assert_eq!(contents(&fifo), vec![2]);
}

#[test]
fn window_without_room_stays_empty() {
    let mut fifo: BoundedFifo<u32, 0> = BoundedFifo::new();
    fifo.push(1);
    fifo.push(2);
    assert!(fifo.is_empty());
    assert_eq!(fifo.capacity(), 0);
}

#[test]
fn clone_of_a_window_holds_the_same() {
    let mut fifo: BoundedFifo<u32, 3> = BoundedFifo::new();
    for value in 1..=5 {
        fifo.push(value);
    }
    let copy = fifo.clone();
    fifo.push(6);
    assert_eq!(contents(&copy), vec![3, 4, 5]);
    assert_eq!(contents(&fifo), vec![4, 5, 6]);
}
