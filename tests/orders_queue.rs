use coffee_maker::order::Order;
use coffee_maker::orders_queue::OrdersQueue;

#[test]
fn should_create_an_empty_order_queue() {
    let queue = OrdersQueue::new();
    assert_eq!(false, queue.finished);
    assert_eq!(true, queue.is_empty());
}

#[test]
fn should_add_an_order_to_the_queue() {
    let mut queue = OrdersQueue::new();
    queue.push(Order::new(1, Vec::new()));
    assert_eq!(false, queue.finished);
    assert_eq!(false, queue.is_empty());
}

#[test]
fn should_pop_an_order_from_the_queue() {
    let mut queue = OrdersQueue::new();
    queue.push(Order::new(1, Vec::new()));
    let order = queue.pop();
    assert_eq!(true, order.is_some());
    assert_eq!(true, queue.is_empty());
}

#[test]
fn should_pop_and_return_none_from_the_queue() {
    let mut queue = OrdersQueue::new();
    let order = queue.pop();
    assert_eq!(true, order.is_none());
    assert_eq!(true, queue.is_empty());
}

#[test]
fn queue_pops_orders_in_the_order_they_were_pushed() {
    let mut queue = OrdersQueue::new();
    queue.push(Order::new(7, Vec::new()));
    queue.push(Order::new(8, Vec::new()));
    assert_eq!(2, queue.len());
    assert_eq!(7, queue.pop().expect("first order").id);
    assert_eq!(8, queue.pop().expect("second order").id);
    assert!(queue.pop().is_none());
}

#[test]
fn queue_marked_finished_stays_finished_and_keeps_its_orders() {
    let mut queue = OrdersQueue::new();
    queue.push(Order::new(1, Vec::new()));
    queue.mark_finished();
    assert!(queue.is_finished());
    assert!(queue.finished);
    assert_eq!(1, queue.len());
}
