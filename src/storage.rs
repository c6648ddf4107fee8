//! In-memory, append-only storage for the rollout items of a run.

use vstd::prelude::*;

use crate::protocol::{EventMsg, EventMsgView, ResponseItem, ResponseItemView};

verus! {

/// A durable artifact of a run.
#[derive(Debug, Clone)]
pub enum RolloutItem {
    ResponseItem(ResponseItem),
    EventMsg(EventMsg),
    Compacted { message: String },
}

pub enum RolloutItemView {
    ResponseItem(ResponseItemView),
    EventMsg(EventMsgView),
    Compacted { message: Seq<char> },
}

impl View for RolloutItem {
    type V = RolloutItemView;

    open spec fn view(&self) -> RolloutItemView {
        match self {
            RolloutItem::ResponseItem(i) => RolloutItemView::ResponseItem(i@),
            RolloutItem::EventMsg(m) => RolloutItemView::EventMsg(m@),
            RolloutItem::Compacted { message } => RolloutItemView::Compacted { message: message@ },
        }
    }
}

impl RolloutItem {
    pub fn copy(&self) -> (r: Self)
        ensures
            r@ == self@,
    {
        match self {
            RolloutItem::ResponseItem(i) => RolloutItem::ResponseItem(i.copy()),
            RolloutItem::EventMsg(m) => RolloutItem::EventMsg(m.copy()),
            RolloutItem::Compacted { message } => RolloutItem::Compacted {
                message: message.clone(),
            },
        }
    }
}

/// The views of a sequence of rollout items.
pub open spec fn rollout_view(v: Seq<RolloutItem>) -> Seq<RolloutItemView> {
    v.map_values(|i: RolloutItem| i@)
}

/// A storage backend that keeps rollout items in memory.
pub struct InMemoryStorage {
    items: Vec<RolloutItem>,
}

impl View for InMemoryStorage {
    type V = Seq<RolloutItemView>;

    closed spec fn view(&self) -> Seq<RolloutItemView> {
        rollout_view(self.items@)
    }
}

impl InMemoryStorage {
    pub fn new() -> (r: Self)
        ensures
            r@ == Seq::<RolloutItemView>::empty(),
    {
        let r = InMemoryStorage { items: Vec::new() };
        assert(r@ =~= Seq::<RolloutItemView>::empty());
        r
    }

    /// All stored items.
    pub fn items(&self) -> (r: Vec<RolloutItem>)
        ensures
            rollout_view(r@) == self@,
    {
        let mut r: Vec<RolloutItem> = Vec::new();
        let mut i: usize = 0;
        while i < self.items.len()
            invariant
                i <= self.items@.len(),
                r@.len() == i,
                forall|j: int| 0 <= j < i ==> #[trigger] r@[j]@ == self.items@[j]@,
            decreases self.items@.len() - i,
        {
            r.push(self.items[i].copy());
            i = i + 1;
        }
        assert(rollout_view(r@) =~= self@);
        r
    }

    /// Append `items`, in order.
    pub fn save(&mut self, items: &[RolloutItem])
        ensures
            final(self)@ == old(self)@ + rollout_view(items@),
    {
        let mut i: usize = 0;
        while i < items.len()
            invariant
                i <= items@.len(),
                self.items@.len() == old(self).items@.len() + i,
                forall|j: int|
                    0 <= j < old(self).items@.len() ==> #[trigger] self.items@[j] == old(
                        self,
                    ).items@[j],
                forall|j: int|
                    0 <= j < i ==> #[trigger] self.items@[old(self).items@.len() + j]@
                        == items@[j]@,
            decreases items@.len() - i,
        {
            self.items.push(items[i].copy());
            i = i + 1;
        }
        assert forall|j: int| 0 <= j < self@.len() implies #[trigger] self@[j] == (old(self)@
            + rollout_view(items@))[j] by {
            if j >= old(self).items@.len() {
                let k = j - old(self).items@.len();
                assert(self.items@[old(self).items@.len() + k]@ == items@[k]@);
            }
        }
        assert(self@ =~= old(self)@ + rollout_view(items@));
    }
}

} // verus!
