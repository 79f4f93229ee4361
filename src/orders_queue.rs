//! The queue of pending orders.
use std::collections::VecDeque;

use vstd::prelude::*;

use crate::order::Order;

verus! {

/// Orders waiting for a dispenser, first in first out, and whether more will come.
/// `finished` means that no order will ever be pushed again.
pub struct OrdersQueue {
    orders: VecDeque<Order>,
    pub finished: bool,
}

impl View for OrdersQueue {
    type V = Seq<Order>;

    closed spec fn view(&self) -> Seq<Order> {
        self.orders@
    }
}

impl OrdersQueue {
    /// Whether no order will ever be pushed again.
    pub closed spec fn spec_finished(&self) -> bool {
        self.finished
    }

    pub fn new() -> (r: OrdersQueue)
        ensures
            r@ == Seq::<Order>::empty(),
            !r.spec_finished(),
    {
        OrdersQueue { orders: VecDeque::new(), finished: false }
    }

    pub fn push(&mut self, order: Order)
        ensures
            final(self)@ == old(self)@.push(order),
            final(self).spec_finished() == old(self).spec_finished(),
    {
        self.orders.push_back(order);
    }

    pub fn pop(&mut self) -> (r: Option<Order>)
        ensures
            old(self)@.len() == 0 ==> r is None && final(self)@ == old(self)@,
            old(self)@.len() > 0 ==> r == Some(old(self)@[0]) && final(self)@ == old(
                self,
            )@.drop_first(),
            final(self).spec_finished() == old(self).spec_finished(),
    {
        self.orders.pop_front()
    }

    pub fn is_empty(&self) -> (r: bool)
        ensures
            r == (self@.len() == 0),
    {
        self.orders.len() == 0
    }

    /// Records that no order will ever be pushed again.
    pub fn mark_finished(&mut self)
        ensures
            final(self)@ == old(self)@,
            final(self).spec_finished(),
    {
        self.finished = true;
    }

    pub fn is_finished(&self) -> (r: bool)
        ensures
            r == self.spec_finished(),
    {
        self.finished
    }

    /// Whether a dispenser has to wait for orders: none is waiting, but more will come.
    pub fn awaits_orders(&self) -> (r: bool)
        ensures
            r == (self@.len() == 0 && !self.spec_finished()),
    {
        self.orders.len() == 0 && !self.finished
    }

    /// Number of orders waiting.
    pub fn len(&self) -> (r: usize)
        ensures
            r == self@.len(),
    {
        self.orders.len()
    }
}

} // verus!
