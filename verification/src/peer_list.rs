//! The small dashboard: the list of peers above a chart of memory use.

use crate::metrics::{MetricRingBuffer, RingModel};
use vstd::prelude::*;

verus! {

/// The number of samples in the chart of memory use.
pub const RAM_TIMES: usize = 500;

/// A peer as the small dashboard lists it.
#[derive(Debug)]
pub struct Peer {
    pub id: String,
    pub uri: String,
    pub gas: u8,
}

/// The views of the small dashboard.
#[derive(Clone, Copy, Debug, PartialEq, Eq, Structural)]
pub enum Tabs {
    Peers,
    Containers,
}

/// The small dashboard.
pub struct App {
    /// Whether the dashboard goes on.
    pub running: bool,
    /// The view that is shown.
    pub tab: Tabs,
    /// The peers the node knows.
    pub peers: Vec<Peer>,
    /// The history of memory use, in percent.
    pub ram_usage: MetricRingBuffer,
}

impl App {
    /// The dashboard at start, over the peers known at that moment, with a flat chart.
    pub fn new(peers: Vec<Peer>) -> (app: App)
        ensures
            app.running,
            app.tab == Tabs::Peers,
            app.peers == peers,
            app.ram_usage@ == RingModel::filled(RAM_TIMES as nat),
    {
        App { running: true, tab: Tabs::Peers, peers, ram_usage: MetricRingBuffer::new(RAM_TIMES) }
    }

    /// A tick of the clock by itself changes nothing.
    pub fn tick(&self) {
    }

    /// Tells the dashboard to stop.
    pub fn quit(&mut self)
        ensures
            !final(self).running,
            final(self).tab == old(self).tab,
            final(self).peers == old(self).peers,
            final(self).ram_usage == old(self).ram_usage,
    {
        self.running = false;
    }

    /// Replaces the peers by `peers` and records `ram` as the newest sample of memory use.
    pub fn refresh(&mut self, peers: Vec<Peer>, ram: u64)
        ensures
            final(self).peers == peers,
            final(self).ram_usage@ == old(self).ram_usage@.push(ram),
            final(self).running == old(self).running,
            final(self).tab == old(self).tab,
    {
        self.peers = peers;
        self.ram_usage.push(ram);
    }
}

} // verus!
