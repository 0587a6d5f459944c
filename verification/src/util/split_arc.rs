//! Two values that are shared by counting handles, and whose lifetimes are managed
//! independently.
//!
//! There are two kinds of handles:
//! - a full handle refers to both values, the header and the value proper;
//! - a partial handle refers to the header only.
//!
//! The value is dropped when the last full handle is dropped, even if there are partial
//! handles still live. The header, and with it the whole allocation, goes with the last handle
//! of either kind. This allows a value with a restrictive lifetime to sit beside a header whose
//! handles may outlive that lifetime.

use vstd::prelude::*;

verus! {

/// What a [`Full`] holds.
#[verifier::ext_equal]
pub struct SplitView<H, T> {
    /// How many handles there are that refer to the header.
    pub refcnt: nat,
    /// How many handles there are that refer to the value.
    pub datacnt: nat,
    /// The header, until the allocation is freed.
    pub header: Option<H>,
    /// The value, until it is dropped.
    pub value: Option<T>,
}

impl<H, T> SplitView<H, T> {
    /// The value is there as long as a handle refers to it, and so is the header.
    pub open spec fn wf(self) -> bool {
        &&& self.datacnt <= self.refcnt
        &&& self.value is Some <==> self.datacnt > 0
        &&& self.header is Some <==> self.refcnt > 0
    }

    /// A fresh allocation with one full handle.
    pub open spec fn fresh(header: H, value: T) -> Self {
        SplitView { refcnt: 1, datacnt: 1, header: Some(header), value: Some(value) }
    }

    /// After a full handle was added.
    pub open spec fn full_added(self) -> Self {
        SplitView { refcnt: self.refcnt + 1, datacnt: self.datacnt + 1, ..self }
    }

    /// After a partial handle was added.
    pub open spec fn partial_added(self) -> Self {
        SplitView { refcnt: self.refcnt + 1, ..self }
    }

    /// After a handle no longer refers to the value: the last one drops it.
    pub open spec fn value_released(self) -> Self {
        SplitView {
            datacnt: (self.datacnt - 1) as nat,
            value: if self.datacnt == 1 {
                None
            } else {
                self.value
            },
            ..self
        }
    }

    /// After a handle no longer refers to the header: the last one frees it.
    pub open spec fn header_released(self) -> Self {
        SplitView {
            refcnt: (self.refcnt - 1) as nat,
            header: if self.refcnt == 1 {
                None
            } else {
                self.header
            },
            ..self
        }
    }
}

/// The allocation that all handles share, with the number of handles of each kind.
pub struct Full<H, T> {
    refcnt: usize,
    datacnt: usize,
    header: Option<H>,
    value: Option<T>,
}

impl<H, T> View for Full<H, T> {
    type V = SplitView<H, T>;

    closed spec fn view(&self) -> SplitView<H, T> {
        SplitView {
            refcnt: self.refcnt as nat,
            datacnt: self.datacnt as nat,
            header: self.header,
            value: self.value,
        }
    }
}

impl<H, T> Full<H, T> {
    /// Allocate both values, with one full handle.
    pub fn new(header: H, value: T) -> (this: Self)
        ensures
            this@ == SplitView::fresh(header, value),
            this@.wf(),
    {
        Full { refcnt: 1, datacnt: 1, header: Some(header), value: Some(value) }
    }

    /// The value, to which a full handle refers.
    pub fn value(this: &Self) -> (value: &T)
        requires
            this@.wf(),
            this@.datacnt > 0,
        ensures
            this@.value == Some(*value),
    {
        this.value.as_ref().unwrap()
    }

    /// The header, to which every handle refers.
    pub fn header(this: &Self) -> (header: &H)
        requires
            this@.wf(),
            this@.refcnt > 0,
        ensures
            this@.header == Some(*header),
    {
        this.header.as_ref().unwrap()
    }

    /// Add a full handle beside one that there is.
    pub fn add_full(this: &mut Self)
        requires
            old(this)@.wf(),
            old(this)@.datacnt > 0,
            old(this)@.refcnt < usize::MAX,
        ensures
            final(this)@ == old(this)@.full_added(),
            final(this)@.wf(),
    {
        this.refcnt = this.refcnt + 1;
        this.datacnt = this.datacnt + 1;
    }

    /// Add a partial handle beside a full one.
    pub fn downgrade(this: &mut Self)
        requires
            old(this)@.wf(),
            old(this)@.datacnt > 0,
            old(this)@.refcnt < usize::MAX,
        ensures
            final(this)@ == old(this)@.partial_added(),
            final(this)@.wf(),
    {
        this.refcnt = this.refcnt + 1;
    }

    /// Add a partial handle beside one of either kind.
    pub fn add_partial(this: &mut Self)
        requires
            old(this)@.wf(),
            0 < old(this)@.refcnt < usize::MAX,
        ensures
            final(this)@ == old(this)@.partial_added(),
            final(this)@.wf(),
    {
        this.refcnt = this.refcnt + 1;
    }

    /// The first half of dropping a full handle: it no longer refers to the value. The value
    /// comes out, to be dropped, if no other handle refers to it.
    pub fn release_value(this: &mut Self) -> (value: Option<T>)
        requires
            old(this)@.wf(),
            old(this)@.datacnt > 0,
        ensures
            final(this)@ == old(this)@.value_released(),
            final(this)@.wf(),
            value == if old(this)@.datacnt == 1 {
                old(this)@.value
            } else {
                None
            },
    {
        let datacnt = this.datacnt;
        this.datacnt = datacnt - 1;
        if datacnt == 1 {
            this.value.take()
        } else {
            None
        }
    }

    /// The second half of dropping a full handle, or dropping a partial one: it no longer refers
    /// to the header. The header comes out, to be dropped with the allocation, if this was the
    /// last handle.
    pub fn release_header(this: &mut Self) -> (header: Option<H>)
        requires
            old(this)@.wf(),
            old(this)@.refcnt > old(this)@.datacnt,
        ensures
            final(this)@ == old(this)@.header_released(),
            final(this)@.wf(),
            header == if old(this)@.refcnt == 1 {
                old(this)@.header
            } else {
                None
            },
    {
        let refcnt = this.refcnt;
        this.refcnt = refcnt - 1;
        if refcnt == 1 {
            this.header.take()
        } else {
            None
        }
    }

    /// Drop a full handle: the value comes out if it was the last full one, and the header if it
    /// was the last of either kind.
    pub fn drop_full(this: &mut Self) -> (dropped: (Option<T>, Option<H>))
        requires
            old(this)@.wf(),
            old(this)@.datacnt > 0,
        ensures
            final(this)@ == old(this)@.value_released().header_released(),
            final(this)@.wf(),
            dropped.0 == if old(this)@.datacnt == 1 {
                old(this)@.value
            } else {
                None
            },
            dropped.1 == if old(this)@.refcnt == 1 {
                old(this)@.header
            } else {
                None
            },
    {
        let value = Self::release_value(this);
        let header = Self::release_header(this);
        (value, header)
    }

    /// Drop a partial handle: the header comes out if it was the last handle of either kind. The
    /// value is not touched.
    pub fn drop_partial(this: &mut Self) -> (header: Option<H>)
        requires
            old(this)@.wf(),
            old(this)@.refcnt > old(this)@.datacnt,
        ensures
            final(this)@ == old(this)@.header_released(),
            final(this)@.wf(),
            header == if old(this)@.refcnt == 1 {
                old(this)@.header
            } else {
                None
            },
    {
        Self::release_header(this)
    }
}

/// One step that the holder of some handle makes.
pub enum SplitStep {
    /// [`Full::add_full`] by the holder of a full handle.
    AddFull,
    /// [`Full::downgrade`] by the holder of a full handle.
    Downgrade,
    /// [`Full::add_partial`] by the holder of a partial handle.
    AddPartial,
    /// [`Full::release_value`] by the holder of a full handle who drops it.
    ReleaseValue,
    /// [`Full::release_header`] by a holder who has released the value before.
    ReleaseHeader,
    /// [`Full::drop_partial`] by the holder of a partial handle.
    DropPartial,
}

/// An allocation and the handles to it.
#[verifier::ext_equal]
pub struct SplitRun<H, T> {
    /// The allocation.
    pub shared: SplitView<H, T>,
    /// How many full handles there are.
    pub fulls: nat,
    /// How many full handles there are that are being dropped, and have released the value.
    pub dropping: nat,
    /// How many partial handles there are.
    pub partials: nat,
}

impl<H, T> SplitRun<H, T> {
    /// Whether there is a handle whose holder can make `step`.
    pub open spec fn allows(self, step: SplitStep) -> bool {
        match step {
            SplitStep::AddFull | SplitStep::Downgrade | SplitStep::ReleaseValue => self.fulls > 0,
            SplitStep::AddPartial | SplitStep::DropPartial => self.partials > 0,
            SplitStep::ReleaseHeader => self.dropping > 0,
        }
    }

    /// What `step` leads to.
    pub open spec fn after(self, step: SplitStep) -> Self {
        match step {
            SplitStep::AddFull => SplitRun {
                shared: self.shared.full_added(),
                fulls: self.fulls + 1,
                ..self
            },
            SplitStep::Downgrade | SplitStep::AddPartial => SplitRun {
                shared: self.shared.partial_added(),
                partials: self.partials + 1,
                ..self
            },
            SplitStep::ReleaseValue => SplitRun {
                shared: self.shared.value_released(),
                fulls: (self.fulls - 1) as nat,
                dropping: self.dropping + 1,
                ..self
            },
            SplitStep::ReleaseHeader => SplitRun {
                shared: self.shared.header_released(),
                dropping: (self.dropping - 1) as nat,
                ..self
            },
            SplitStep::DropPartial => SplitRun {
                shared: self.shared.header_released(),
                partials: (self.partials - 1) as nat,
                ..self
            },
        }
    }

    /// What `steps` lead to, beginning with a fresh allocation and its one full handle.
    pub open spec fn run(header: H, value: T, steps: Seq<SplitStep>) -> Self
        decreases steps.len(),
    {
        if steps.len() == 0 {
            SplitRun {
                shared: SplitView::fresh(header, value),
                fulls: 1,
                dropping: 0,
                partials: 0,
            }
        } else {
            Self::run(header, value, steps.drop_last()).after(steps.last())
        }
    }

    /// Whether `steps` can be made one after the other, beginning with a fresh allocation.
    pub open spec fn possible(header: H, value: T, steps: Seq<SplitStep>) -> bool
        decreases steps.len(),
    {
        steps.len() == 0 || {
            &&& Self::possible(header, value, steps.drop_last())
            &&& Self::run(header, value, steps.drop_last()).allows(steps.last())
        }
    }
}

/// However the steps of the holders interleave: the value is there, unchanged, exactly as long
/// as there is a full handle that has not released it, even if partial handles are still live;
/// and the header is there, unchanged, exactly as long as there is a handle of either kind.
pub proof fn law_values_live_as_long_as_their_handles<H, T>(
    header: H,
    value: T,
    steps: Seq<SplitStep>,
)
    requires
        SplitRun::possible(header, value, steps),
    ensures
        ({
            let run = SplitRun::run(header, value, steps);
            &&& run.shared.wf()
            &&& run.shared.datacnt == run.fulls
            &&& run.shared.refcnt == run.fulls + run.dropping + run.partials
            &&& run.shared.value == if run.fulls > 0 {
                Some(value)
            } else {
                None
            }
            &&& run.shared.header == if run.fulls + run.dropping + run.partials > 0 {
                Some(header)
            } else {
                None
            }
        }),
    decreases steps.len(),
{
    if steps.len() > 0 {
        law_values_live_as_long_as_their_handles(header, value, steps.drop_last());
    }
}

/// Once the value is gone there is no full handle that could be cloned, and once the allocation
/// is freed no holder can make any step: nothing is dropped twice or used after it was dropped.
pub proof fn law_nothing_is_used_after_it_was_dropped<H, T>(
    header: H,
    value: T,
    steps: Seq<SplitStep>,
    step: SplitStep,
)
    requires
        SplitRun::possible(header, value, steps),
        SplitRun::run(header, value, steps).allows(step),
    ensures
        SplitRun::run(header, value, steps).shared.header is Some,
        step is AddFull || step is Downgrade || step is ReleaseValue ==> SplitRun::run(
            header,
            value,
            steps,
        ).shared.value is Some,
{
    law_values_live_as_long_as_their_handles(header, value, steps);
}

/// To add a handle and to drop it again changes nothing, as long as there are others.
pub proof fn law_adding_and_dropping_cancel_out<H, T>(shared: SplitView<H, T>)
    requires
        shared.wf(),
        shared.datacnt > 0,
    ensures
        shared.full_added().value_released().header_released() == shared,
        shared.partial_added().header_released() == shared,
        shared.full_added().wf(),
        shared.partial_added().wf(),
        shared.full_added().refcnt == shared.refcnt + 1,
        shared.full_added().datacnt == shared.datacnt + 1,
        shared.partial_added().refcnt == shared.refcnt + 1,
        shared.partial_added().datacnt == shared.datacnt,
{
}

} // verus!
