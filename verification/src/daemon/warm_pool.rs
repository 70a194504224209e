//! The bounded pool of idle devices that wait for their next use. That the
//! device which was idle longest leaves first, and that a refill goes up to the
//! low watermark, are choices of this library.
use crate::daemon::tables::{Device, DeviceView};
use vstd::prelude::*;

verus! {

/// How full a pool is kept.
#[derive(Debug, Clone, Copy, PartialEq, Eq, Structural)]
pub struct PoolConfig {
    /// Below this many idle items the pool is filled up.
    pub low_watermark: usize,
    /// The pool never holds more idle items than this.
    pub high_watermark: usize,
    /// Whether a background task keeps the pool filled.
    pub maintenance_enabled: bool,
    /// Whether items are made before they are asked for.
    pub startup_prewarm: bool,
}

/// An idle device. It serves a placeholder image of `sectors` blocks.
#[derive(Debug)]
pub struct PooledDevice {
    pub device: Device,
    pub sectors: u64,
}

/// The model of an idle device.
#[verifier::ext_equal]
pub struct PooledView {
    pub device: DeviceView,
    pub sectors: u64,
}

impl View for PooledDevice {
    type V = PooledView;

    open spec fn view(&self) -> PooledView {
        PooledView { device: self.device@, sectors: self.sectors }
    }
}

/// Which idle devices are acceptable.
#[derive(Debug, Clone, Copy, PartialEq, Eq, Structural)]
pub enum Fit {
    /// Every one.
    Any,
    /// One of exactly this many blocks.
    Sectors(u64),
}

/// Whether `pooled` is acceptable.
pub open spec fn fits(pooled: PooledView, fit: Fit) -> bool {
    match fit {
        Fit::Any => true,
        Fit::Sectors(sectors) => pooled.sectors == sectors,
    }
}

/// The position of the first acceptable device, or the length of the pool
/// where there is none.
pub open spec fn first_fit(idle: Seq<PooledView>, fit: Fit) -> nat
    decreases idle.len(),
{
    if idle.len() == 0 || fits(idle[0], fit) {
        0
    } else {
        1 + first_fit(idle.drop_first(), fit)
    }
}

/// `first_fit` is the position before which nothing is acceptable.
pub proof fn lemma_first_fit(idle: Seq<PooledView>, fit: Fit, i: nat)
    requires
        i <= idle.len(),
        forall|k: int| 0 <= k < i ==> !fits(#[trigger] idle[k], fit),
        i < idle.len() ==> fits(idle[i as int], fit),
    ensures
        first_fit(idle, fit) == i,
    decreases idle.len(),
{
    if i > 0 {
        assert(!fits(idle[0], fit));
        let rest = idle.drop_first();
        assert forall|k: int| 0 <= k < i - 1 implies !fits(#[trigger] rest[k], fit) by {
            assert(rest[k] == idle[k + 1]);
        }
        lemma_first_fit(rest, fit, (i - 1) as nat);
    }
}

/// `first_fit` never passes the end.
pub proof fn lemma_first_fit_bound(idle: Seq<PooledView>, fit: Fit)
    ensures
        first_fit(idle, fit) <= idle.len(),
        first_fit(idle, fit) < idle.len() ==> fits(idle[first_fit(idle, fit) as int], fit),
    decreases idle.len(),
{
    if idle.len() > 0 && !fits(idle[0], fit) {
        lemma_first_fit_bound(idle.drop_first(), fit);
    }
}

/// How many devices a refill makes: those that are missing to the low watermark,
/// whether or not a background task keeps the pool filled.
pub open spec fn missing(idle_len: nat, config: PoolConfig) -> nat {
    if idle_len < config.low_watermark {
        (config.low_watermark - idle_len) as nat
    } else {
        0
    }
}

/// The idle devices, the longest idle first.
#[derive(Debug)]
pub struct WarmPool {
    items: Vec<PooledDevice>,
    config: PoolConfig,
}

impl View for WarmPool {
    type V = Seq<PooledView>;

    closed spec fn view(&self) -> Seq<PooledView> {
        self.items@.map_values(|p: PooledDevice| p@)
    }
}

impl WarmPool {
    /// How full this pool is kept.
    pub closed spec fn spec_config(&self) -> PoolConfig {
        self.config
    }

    /// An empty pool.
    pub fn new(config: PoolConfig) -> (r: WarmPool)
        ensures
            r@ == Seq::<PooledView>::empty(),
            r.spec_config() == config,
    {
        let r = WarmPool { items: Vec::new(), config };
        assert(r@ =~= Seq::<PooledView>::empty());
        r
    }

    /// The number of idle devices.
    pub fn len(&self) -> (r: usize)
        ensures
            r == self@.len(),
    {
        self.items.len()
    }

    /// Takes out the first acceptable device.
    pub fn try_acquire(&mut self, fit: Fit) -> (r: Option<PooledDevice>)
        ensures
            final(self).spec_config() == old(self).spec_config(),
            r is Some <==> first_fit(old(self)@, fit) < old(self)@.len(),
            match r {
                Some(pooled) => {
                    let at = first_fit(old(self)@, fit) as int;
                    &&& pooled@ == old(self)@[at]
                    &&& final(self)@ == old(self)@.remove(at)
                },
                None => final(self)@ == old(self)@,
            },
    {
        let mut i: usize = 0;
        let size: usize = self.items.len();
        while i < size
            invariant
                i <= size,
                size == self.items@.len(),
                self@ == old(self)@,
                self.config == old(self).config,
                forall|k: int| 0 <= k < i ==> !fits(#[trigger] self@[k], fit),
            decreases size - i,
        {
            let sectors: u64 = self.items[i].sectors;
            let found: bool = match fit {
                Fit::Any => true,
                Fit::Sectors(wanted) => sectors == wanted,
            };
            assert(self@[i as int] == self.items@[i as int]@);
            if found {
                proof {
                    lemma_first_fit(self@, fit, i as nat);
                }
                let pooled: PooledDevice = self.items.remove(i);
                assert(self@ =~= old(self)@.remove(i as int));
                return Some(pooled);
            }
            i = i + 1;
        }
        proof {
            lemma_first_fit(self@, fit, i as nat);
        }
        None
    }

    /// Adds a device at the end unless the pool is at its high watermark; then
    /// the device is handed back.
    pub fn try_push_bounded(&mut self, pooled: PooledDevice) -> (r: Option<PooledDevice>)
        ensures
            final(self).spec_config() == old(self).spec_config(),
            r is None <==> old(self)@.len() < old(self).spec_config().high_watermark,
            match r {
                None => final(self)@ == old(self)@.push(pooled@),
                Some(excess) => excess@ == pooled@ && final(self)@ == old(self)@,
            },
    {
        if self.items.len() < self.config.high_watermark {
            self.items.push(pooled);
            assert(self@ =~= old(self)@.push(pooled@));
            None
        } else {
            Some(pooled)
        }
    }

    /// How many devices have to be made to reach the low watermark.
    pub fn missing(&self) -> (r: usize)
        ensures
            r == missing(self@.len(), self.spec_config()),
    {
        if self.items.len() < self.config.low_watermark {
            self.config.low_watermark - self.items.len()
        } else {
            0
        }
    }

    /// Takes out the first device, whatever its size.
    pub fn pop_first(&mut self) -> (r: Option<PooledDevice>)
        ensures
            final(self).spec_config() == old(self).spec_config(),
            r is Some <==> old(self)@.len() > 0,
            match r {
                Some(pooled) => pooled@ == old(self)@[0] && final(self)@ == old(
                    self,
                )@.drop_first(),
                None => final(self)@ == old(self)@,
            },
    {
        if self.items.len() == 0 {
            None
        } else {
            let pooled: PooledDevice = self.items.remove(0);
            assert(self@ =~= old(self)@.drop_first());
            Some(pooled)
        }
    }
}

} // verus!
