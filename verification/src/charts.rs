//! The consumer's side of the pipeline: the chart histories of each view and
//! how a snapshot advances them. Values enter a history in percent units;
//! network rates are first brought to chart height.

use crate::channel::{lemma_delivery_in_order, send_all, SnapshotQueue};
use crate::enhanced::EnhancedSystemData;
use crate::ranking::{is_top_ranked, rank_processes, PROCESS_LIST_CAP};
use crate::rate::{chart_height, chart_height_spec, combined_chart_height};
use crate::system::{ProcessInfo, SystemData};
use crate::window::{
    add_all, advanced, DualWindow, SlidingWindow, DETAILED_MAX_POINTS, MAX_POINTS,
    SPARKLINE_MAX_POINTS,
};
use vstd::prelude::*;

verus! {

/// The overall processor load of each snapshot.
pub open spec fn cpu_usages(snapshots: Seq<SystemData>) -> Seq<u32> {
    Seq::new(snapshots.len(), |i: int| snapshots[i].cpu.usage)
}

/// The share of memory in use of each snapshot.
pub open spec fn memory_usages(snapshots: Seq<SystemData>) -> Seq<u32> {
    Seq::new(snapshots.len(), |i: int| snapshots[i].memory.used_percent)
}

/// The chart height of the receive rate of each snapshot.
pub open spec fn receive_heights(snapshots: Seq<SystemData>) -> Seq<u32> {
    Seq::new(
        snapshots.len(),
        |i: int| chart_height_spec(snapshots[i].network.received_rate as nat) as u32,
    )
}

/// Whether each of `snapshots` was taken later than the one before it.
pub open spec fn in_time_order(snapshots: Seq<SystemData>) -> bool {
    forall|i: int, j: int|
        0 <= i < j < snapshots.len() ==> (#[trigger] snapshots[i]).timestamp < (
        #[trigger] snapshots[j]).timestamp
}

/// Snapshots arrive in the order in which they were taken: when the sampling
/// loop sends snapshots of rising timestamps, the consumer that then drains
/// the queue sees the same snapshots with the same rising timestamps.
pub proof fn lemma_snapshots_arrive_in_time_order(sent: Seq<SystemData>)
    requires
        in_time_order(sent),
    ensures
        send_all(Seq::<SystemData>::empty(), sent) == sent,
        in_time_order(send_all(Seq::<SystemData>::empty(), sent)),
{
    lemma_delivery_in_order(sent);
}

/// Rates above this are shown in MB/s: 1024 KB/s, in rate units.
pub const MEGABYTE_RATE: u128 = 1_048_576;

/// Whether a label shows `rate` in MB/s rather than in KB/s: it does for
/// rates above 1024 KB/s.
pub fn shows_megabytes(rate: u128) -> (mb: bool)
    ensures
        mb == (rate > MEGABYTE_RATE),
{
    rate > MEGABYTE_RATE
}

/// Whole mebibytes in `bytes`, as the memory labels show them.
pub fn mebibytes(bytes: u64) -> (mb: u64)
    ensures
        mb == bytes as nat / 1_048_576,
{
    bytes / 1024 / 1024
}

/// The rows of the process list: the processes by rank, at most
/// `PROCESS_LIST_CAP` of them.
pub fn process_rows(processes: Vec<ProcessInfo>) -> (rows: Vec<ProcessInfo>)
    ensures
        is_top_ranked(processes@, PROCESS_LIST_CAP as nat, rows@),
{
    rank_processes(processes, PROCESS_LIST_CAP)
}

/// The three graphs of the main window: processor, memory and network.
pub struct Ui {
    cpu_graph: SlidingWindow<u32>,
    memory_graph: SlidingWindow<u32>,
    network_graph: SlidingWindow<u32>,
}

impl Ui {
    /// The processor graph.
    pub closed spec fn cpu(&self) -> SlidingWindow<u32> {
        self.cpu_graph
    }

    /// The memory graph.
    pub closed spec fn memory(&self) -> SlidingWindow<u32> {
        self.memory_graph
    }

    /// The network graph.
    pub closed spec fn network(&self) -> SlidingWindow<u32> {
        self.network_graph
    }

    /// The invariant: each graph is a valid window of `MAX_POINTS` samples.
    pub open spec fn wf(&self) -> bool {
        &&& self.cpu().wf() && self.cpu().capacity() == MAX_POINTS
        &&& self.memory().wf() && self.memory().capacity() == MAX_POINTS
        &&& self.network().wf() && self.network().capacity() == MAX_POINTS
    }

    /// Three empty graphs.
    pub fn new() -> (ui: Self)
        ensures
            ui.wf(),
            ui.cpu()@ == Seq::<u32>::empty(),
            ui.memory()@ == Seq::<u32>::empty(),
            ui.network()@ == Seq::<u32>::empty(),
    {
        Ui {
            cpu_graph: SlidingWindow::new(MAX_POINTS),
            memory_graph: SlidingWindow::new(MAX_POINTS),
            network_graph: SlidingWindow::new(MAX_POINTS),
        }
    }

    /// The processor graph, for drawing.
    pub fn cpu_graph(&self) -> (w: &SlidingWindow<u32>)
        ensures
            *w == self.cpu(),
    {
        &self.cpu_graph
    }

    /// The memory graph, for drawing.
    pub fn memory_graph(&self) -> (w: &SlidingWindow<u32>)
        ensures
            *w == self.memory(),
    {
        &self.memory_graph
    }

    /// The network graph, for drawing.
    pub fn network_graph(&self) -> (w: &SlidingWindow<u32>)
        ensures
            *w == self.network(),
    {
        &self.network_graph
    }

    /// Advances each graph by one sample from `data`: the overall processor
    /// load, the share of memory in use and the receive rate at chart height.
    pub fn update_data(&mut self, data: &SystemData)
        requires
            old(self).wf(),
        ensures
            final(self).wf(),
            advanced(old(self).cpu(), final(self).cpu(), data.cpu.usage),
            advanced(old(self).memory(), final(self).memory(), data.memory.used_percent),
            advanced(
                old(self).network(),
                final(self).network(),
                chart_height_spec(data.network.received_rate as nat) as u32,
            ),
    {
        self.cpu_graph.add_point(data.cpu.usage);
        self.memory_graph.add_point(data.memory.used_percent);
        self.network_graph.add_point(chart_height(data.network.received_rate));
    }

    /// One poll of the consumer: takes every snapshot that waits in `queue`
    /// and applies them oldest first, so the graphs end as if each had been
    /// applied on arrival. Returns how many were applied.
    pub fn poll(&mut self, queue: &mut SnapshotQueue<SystemData>) -> (applied: usize)
        requires
            old(self).wf(),
        ensures
            final(self).wf(),
            final(queue)@ == Seq::<SystemData>::empty(),
            applied == old(queue)@.len(),
            final(self).cpu()@ == add_all(
                old(self).cpu()@,
                MAX_POINTS as nat,
                cpu_usages(old(queue)@),
            ),
            final(self).memory()@ == add_all(
                old(self).memory()@,
                MAX_POINTS as nat,
                memory_usages(old(queue)@),
            ),
            final(self).network()@ == add_all(
                old(self).network()@,
                MAX_POINTS as nat,
                receive_heights(old(queue)@),
            ),
    {
        let batch = queue.drain();
        let mut i: usize = 0;
        while i < batch.len()
            invariant
                i <= batch@.len(),
                self.wf(),
                self.cpu()@ == add_all(
                    old(self).cpu()@,
                    MAX_POINTS as nat,
                    cpu_usages(batch@.subrange(0, i as int)),
                ),
                self.memory()@ == add_all(
                    old(self).memory()@,
                    MAX_POINTS as nat,
                    memory_usages(batch@.subrange(0, i as int)),
                ),
                self.network()@ == add_all(
                    old(self).network()@,
                    MAX_POINTS as nat,
                    receive_heights(batch@.subrange(0, i as int)),
                ),
            decreases batch@.len() - i,
        {
            proof {
                let seen = batch@.subrange(0, i as int);
                let next = batch@.subrange(0, i + 1);
                assert(cpu_usages(next).drop_last() =~= cpu_usages(seen));
                assert(memory_usages(next).drop_last() =~= memory_usages(seen));
                assert(receive_heights(next).drop_last() =~= receive_heights(seen));
            }
            self.update_data(&batch[i]);
            i += 1;
        }
        assert(batch@.subrange(0, i as int) =~= batch@);
        i
    }
}

/// The three sparklines of the dashboard: processor, memory and network.
pub struct DashboardView {
    cpu_sparkline: SlidingWindow<u32>,
    memory_sparkline: SlidingWindow<u32>,
    network_sparkline: SlidingWindow<u32>,
}

impl DashboardView {
    /// The processor sparkline.
    pub closed spec fn cpu(&self) -> SlidingWindow<u32> {
        self.cpu_sparkline
    }

    /// The memory sparkline.
    pub closed spec fn memory(&self) -> SlidingWindow<u32> {
        self.memory_sparkline
    }

    /// The network sparkline.
    pub closed spec fn network(&self) -> SlidingWindow<u32> {
        self.network_sparkline
    }

    /// The invariant: each sparkline is a valid window.
    pub open spec fn wf(&self) -> bool {
        self.cpu().wf() && self.memory().wf() && self.network().wf()
    }

    /// Three empty sparklines of `SPARKLINE_MAX_POINTS` samples.
    pub fn new() -> (v: Self)
        ensures
            v.wf(),
            v.cpu()@ == Seq::<u32>::empty() && v.cpu().capacity() == SPARKLINE_MAX_POINTS,
            v.memory()@ == Seq::<u32>::empty() && v.memory().capacity() == SPARKLINE_MAX_POINTS,
            v.network()@ == Seq::<u32>::empty() && v.network().capacity() == SPARKLINE_MAX_POINTS,
    {
        DashboardView {
            cpu_sparkline: SlidingWindow::new(SPARKLINE_MAX_POINTS),
            memory_sparkline: SlidingWindow::new(SPARKLINE_MAX_POINTS),
            network_sparkline: SlidingWindow::new(SPARKLINE_MAX_POINTS),
        }
    }

    /// The processor sparkline, for drawing.
    pub fn cpu_sparkline(&self) -> (w: &SlidingWindow<u32>)
        ensures
            *w == self.cpu(),
    {
        &self.cpu_sparkline
    }

    /// The memory sparkline, for drawing.
    pub fn memory_sparkline(&self) -> (w: &SlidingWindow<u32>)
        ensures
            *w == self.memory(),
    {
        &self.memory_sparkline
    }

    /// The network sparkline, for drawing.
    pub fn network_sparkline(&self) -> (w: &SlidingWindow<u32>)
        ensures
            *w == self.network(),
    {
        &self.network_sparkline
    }

    /// Advances each sparkline by one sample from `data`; the network one
    /// shows both directions together.
    pub fn update_data(&mut self, data: &EnhancedSystemData)
        requires
            old(self).wf(),
        ensures
            final(self).wf(),
            advanced(old(self).cpu(), final(self).cpu(), data.cpu.usage),
            advanced(old(self).memory(), final(self).memory(), data.memory.used_percent),
            advanced(
                old(self).network(),
                final(self).network(),
                chart_height_spec(
                    data.network.received_rate as nat + data.network.transmitted_rate as nat,
                ) as u32,
            ),
    {
        self.cpu_sparkline.add_point(data.cpu.usage);
        self.memory_sparkline.add_point(data.memory.used_percent);
        self.network_sparkline.add_point(
            combined_chart_height(data.network.received_rate, data.network.transmitted_rate),
        );
    }
}

/// The detailed processor chart.
pub struct CpuView {
    chart: SlidingWindow<u32>,
}

impl CpuView {
    /// The chart's history.
    pub closed spec fn history(&self) -> SlidingWindow<u32> {
        self.chart
    }

    /// An empty chart of `DETAILED_MAX_POINTS` samples.
    pub fn new() -> (v: Self)
        ensures
            v.history().wf(),
            v.history()@ == Seq::<u32>::empty(),
            v.history().capacity() == DETAILED_MAX_POINTS,
    {
        CpuView { chart: SlidingWindow::new(DETAILED_MAX_POINTS) }
    }

    /// The chart's history, for drawing.
    pub fn chart(&self) -> (w: &SlidingWindow<u32>)
        ensures
            *w == self.history(),
    {
        &self.chart
    }

    /// Advances the chart by the overall processor load of `data`.
    pub fn update_data(&mut self, data: &EnhancedSystemData)
        requires
            old(self).history().wf(),
        ensures
            advanced(old(self).history(), final(self).history(), data.cpu.usage),
    {
        self.chart.add_point(data.cpu.usage);
    }
}

/// The detailed memory chart.
pub struct MemoryView {
    chart: SlidingWindow<u32>,
}

impl MemoryView {
    /// The chart's history.
    pub closed spec fn history(&self) -> SlidingWindow<u32> {
        self.chart
    }

    /// An empty chart of `DETAILED_MAX_POINTS` samples.
    pub fn new() -> (v: Self)
        ensures
            v.history().wf(),
            v.history()@ == Seq::<u32>::empty(),
            v.history().capacity() == DETAILED_MAX_POINTS,
    {
        MemoryView { chart: SlidingWindow::new(DETAILED_MAX_POINTS) }
    }

    /// The chart's history, for drawing.
    pub fn chart(&self) -> (w: &SlidingWindow<u32>)
        ensures
            *w == self.history(),
    {
        &self.chart
    }

    /// Advances the chart by the share of memory in use of `data`.
    pub fn update_data(&mut self, data: &EnhancedSystemData)
        requires
            old(self).history().wf(),
        ensures
            advanced(old(self).history(), final(self).history(), data.memory.used_percent),
    {
        self.chart.add_point(data.memory.used_percent);
    }
}

/// The detailed network chart, with one line for each direction.
pub struct NetworkView {
    chart: DualWindow<u32>,
}

impl NetworkView {
    /// The chart's two histories: received first, transmitted second.
    pub closed spec fn history(&self) -> DualWindow<u32> {
        self.chart
    }

    /// An empty chart of `DETAILED_MAX_POINTS` samples for each direction.
    pub fn new() -> (v: Self)
        ensures
            v.history().wf(),
            v.history().first_series()@ == Seq::<u32>::empty(),
            v.history().second_series()@ == Seq::<u32>::empty(),
            v.history().first_series().capacity() == DETAILED_MAX_POINTS,
            v.history().second_series().capacity() == DETAILED_MAX_POINTS,
    {
        NetworkView { chart: DualWindow::new(DETAILED_MAX_POINTS) }
    }

    /// The chart's two histories, for drawing.
    pub fn chart(&self) -> (w: &DualWindow<u32>)
        ensures
            *w == self.history(),
    {
        &self.chart
    }

    /// Advances both lines by the rates of `data` at chart height.
    pub fn update_data(&mut self, data: &EnhancedSystemData)
        requires
            old(self).history().wf(),
        ensures
            final(self).history().wf(),
            advanced(
                old(self).history().first_series(),
                final(self).history().first_series(),
                chart_height_spec(data.network.received_rate as nat) as u32,
            ),
            advanced(
                old(self).history().second_series(),
                final(self).history().second_series(),
                chart_height_spec(data.network.transmitted_rate as nat) as u32,
            ),
    {
        let download = chart_height(data.network.received_rate);
        let upload = chart_height(data.network.transmitted_rate);
        self.chart.add_points(download, upload);
    }
}

/// All the views of the vitals window that keep a history.
pub struct VitalsWindow {
    dashboard_view: DashboardView,
    cpu_view: CpuView,
    memory_view: MemoryView,
    network_view: NetworkView,
}

impl VitalsWindow {
    /// The dashboard.
    pub closed spec fn dashboard(&self) -> DashboardView {
        self.dashboard_view
    }

    /// The processor view.
    pub closed spec fn cpu(&self) -> CpuView {
        self.cpu_view
    }

    /// The memory view.
    pub closed spec fn memory(&self) -> MemoryView {
        self.memory_view
    }

    /// The network view.
    pub closed spec fn network(&self) -> NetworkView {
        self.network_view
    }

    /// The invariant: every history is a valid window.
    pub open spec fn wf(&self) -> bool {
        &&& self.dashboard().wf()
        &&& self.cpu().history().wf()
        &&& self.memory().history().wf()
        &&& self.network().history().wf()
    }

    /// A window whose views are all empty: the dashboard's sparklines hold
    /// up to `SPARKLINE_MAX_POINTS` samples each, the detailed charts up to
    /// `DETAILED_MAX_POINTS`.
    pub fn new() -> (w: Self)
        ensures
            w.wf(),
            w.dashboard().cpu()@ == Seq::<u32>::empty(),
            w.dashboard().memory()@ == Seq::<u32>::empty(),
            w.dashboard().network()@ == Seq::<u32>::empty(),
            w.cpu().history()@ == Seq::<u32>::empty(),
            w.memory().history()@ == Seq::<u32>::empty(),
            w.network().history().first_series()@ == Seq::<u32>::empty(),
            w.network().history().second_series()@ == Seq::<u32>::empty(),
            w.dashboard().cpu().capacity() == SPARKLINE_MAX_POINTS,
            w.dashboard().memory().capacity() == SPARKLINE_MAX_POINTS,
            w.dashboard().network().capacity() == SPARKLINE_MAX_POINTS,
            w.cpu().history().capacity() == DETAILED_MAX_POINTS,
            w.memory().history().capacity() == DETAILED_MAX_POINTS,
            w.network().history().first_series().capacity() == DETAILED_MAX_POINTS,
            w.network().history().second_series().capacity() == DETAILED_MAX_POINTS,
    {
        VitalsWindow {
            dashboard_view: DashboardView::new(),
            cpu_view: CpuView::new(),
            memory_view: MemoryView::new(),
            network_view: NetworkView::new(),
        }
    }

    /// The dashboard, for drawing.
    pub fn dashboard_view(&self) -> (v: &DashboardView)
        ensures
            *v == self.dashboard(),
    {
        &self.dashboard_view
    }

    /// The processor view, for drawing.
    pub fn cpu_view(&self) -> (v: &CpuView)
        ensures
            *v == self.cpu(),
    {
        &self.cpu_view
    }

    /// The memory view, for drawing.
    pub fn memory_view(&self) -> (v: &MemoryView)
        ensures
            *v == self.memory(),
    {
        &self.memory_view
    }

    /// The network view, for drawing.
    pub fn network_view(&self) -> (v: &NetworkView)
        ensures
            *v == self.network(),
    {
        &self.network_view
    }

    /// Hands `data` to every view, each of which advances as its own
    /// `update_data` says.
    pub fn update_data(&mut self, data: &EnhancedSystemData)
        requires
            old(self).wf(),
        ensures
            final(self).wf(),
            advanced(old(self).dashboard().cpu(), final(self).dashboard().cpu(), data.cpu.usage),
            advanced(
                old(self).dashboard().memory(),
                final(self).dashboard().memory(),
                data.memory.used_percent,
            ),
            advanced(
                old(self).dashboard().network(),
                final(self).dashboard().network(),
                chart_height_spec(
                    data.network.received_rate as nat + data.network.transmitted_rate as nat,
                ) as u32,
            ),
            advanced(old(self).cpu().history(), final(self).cpu().history(), data.cpu.usage),
            advanced(
                old(self).memory().history(),
                final(self).memory().history(),
                data.memory.used_percent,
            ),
            advanced(
                old(self).network().history().first_series(),
                final(self).network().history().first_series(),
                chart_height_spec(data.network.received_rate as nat) as u32,
            ),
            advanced(
                old(self).network().history().second_series(),
                final(self).network().history().second_series(),
                chart_height_spec(data.network.transmitted_rate as nat) as u32,
            ),
    {
        self.dashboard_view.update_data(data);
        self.cpu_view.update_data(data);
        self.memory_view.update_data(data);
        self.network_view.update_data(data);
    }
}

} // verus!
