//! The dashboard as a whole: every piece of its state in one value, and the
//! transitions that keys, ticks and the control tool cause.

use crate::command::{
    log_view, CommandEvent, CommandTask, EventModel, LogEntry, LogLine, StatusModel, TaskModel,
};
use crate::entity::{Client, Container, Env, Peer, Service, Tunnel};
use crate::layout::{LayoutMode, LayoutModel, LayoutRotator};
use crate::lines::last_of;
use crate::list::{position_view, ListModel, StatefulList};
use crate::metrics::{MetricRingBuffer, RingModel};
use crate::modal::{is_address, ConnectModal, ModalModel};
use crate::tabs::{TabsModel, TabsState};
use crate::text::names_view;
use vstd::prelude::*;

verus! {

/// The number of samples in the chart of memory use.
pub const RAM_TIMES: usize = 500;

/// The number of samples in the chart of processor use.
pub const CPU_TIMES: usize = 500;

/// The tab of the peers.
pub const PEERS_TAB: usize = 0;

/// The tab of the clients.
pub const CLIENTS_TAB: usize = 1;

/// The tab of the running instances.
pub const INSTANCES_TAB: usize = 2;

/// The tab of the services.
pub const SERVICES_TAB: usize = 3;

/// The tab of the environment variables.
pub const ENVS_TAB: usize = 4;

/// The tab of the tunnels.
pub const TUNNELS_TAB: usize = 5;

/// The title on the frame of the dashboard.
pub const TITLE: &'static str = "NODO TUI";

/// The verb that connects the node to a peer.
pub const CONNECT_VERB: &'static str = "connect";

/// The verb that runs an instance of a service.
pub const EXECUTE_VERB: &'static str = "execute";

/// The verb that removes a peer.
pub const PRUNE_PEER_VERB: &'static str = "prune:peer";

/// The titles of the tabs, left to right.
pub open spec fn tab_titles() -> Seq<Seq<char>> {
    seq!["PEERS"@, "CLIENTS"@, "INSTANCES"@, "SERVICES"@, "ENVS"@, "TUNNELS"@]
}

/// The kinds of side panel, in the order in which they take turns.
pub open spec fn panel_kinds() -> Seq<Seq<char>> {
    seq!["ram-usage"@, "cpu-usage"@, "tui-logs"@, "logs"@]
}

/// Everything the node holds at one moment, one list for each kind of record.
pub struct Inventory {
    pub peers: Vec<Peer>,
    pub clients: Vec<Client>,
    pub instances: Vec<Container>,
    pub services: Vec<Service>,
    pub envs: Vec<Env>,
    pub tunnels: Vec<Tunnel>,
}

/// Mathematical model of an [`App`].
pub struct AppModel {
    pub title: Seq<char>,
    pub tabs: TabsModel,
    pub running: bool,
    pub logs: Seq<LogLine>,
    pub commands: Seq<TaskModel>,
    pub peers: ListModel<Peer>,
    pub clients: ListModel<Client>,
    pub instances: ListModel<Container>,
    pub services: ListModel<Service>,
    pub envs: ListModel<Env>,
    pub tunnels: ListModel<Tunnel>,
    pub ram_usage: RingModel,
    pub cpu_usage: RingModel,
    pub layout: LayoutModel,
    pub modal: ModalModel,
}

impl AppModel {
    /// The dashboard at start: the first tab, nothing selected in any list,
    /// flat charts, no side panel, the pop-up closed, nothing logged.
    pub open spec fn initial(inventory: Inventory) -> AppModel {
        AppModel {
            title: TITLE@,
            tabs: TabsModel { titles: tab_titles(), index: 0 },
            running: true,
            logs: seq![],
            commands: seq![],
            peers: ListModel { items: inventory.peers@, selected_index: None, selected_id: None },
            clients: ListModel {
                items: inventory.clients@,
                selected_index: None,
                selected_id: None,
            },
            instances: ListModel {
                items: inventory.instances@,
                selected_index: None,
                selected_id: None,
            },
            services: ListModel {
                items: inventory.services@,
                selected_index: None,
                selected_id: None,
            },
            envs: ListModel { items: inventory.envs@, selected_index: None, selected_id: None },
            tunnels: ListModel {
                items: inventory.tunnels@,
                selected_index: None,
                selected_id: None,
            },
            ram_usage: RingModel::filled(RAM_TIMES as nat),
            cpu_usage: RingModel::filled(CPU_TIMES as nat),
            layout: LayoutModel {
                mode: LayoutMode::Hidden,
                panel_kinds: panel_kinds(),
                rotation_offset: 0,
            },
            modal: ModalModel::closed(),
        }
    }

    /// The tab to the right becomes active.
    pub open spec fn on_right(self) -> AppModel {
        AppModel { tabs: self.tabs.next(), ..self }
    }

    /// The tab to the left becomes active.
    pub open spec fn on_left(self) -> AppModel {
        AppModel { tabs: self.tabs.previous(), ..self }
    }

    /// The cursor of the list on the active tab moves one item back.
    pub open spec fn on_up(self) -> AppModel {
        if self.tabs.index == PEERS_TAB {
            AppModel { peers: self.peers.previous(), ..self }
        } else if self.tabs.index == CLIENTS_TAB {
            AppModel { clients: self.clients.previous(), ..self }
        } else if self.tabs.index == INSTANCES_TAB {
            AppModel { instances: self.instances.previous(), ..self }
        } else if self.tabs.index == SERVICES_TAB {
            AppModel { services: self.services.previous(), ..self }
        } else if self.tabs.index == ENVS_TAB {
            AppModel { envs: self.envs.previous(), ..self }
        } else if self.tabs.index == TUNNELS_TAB {
            AppModel { tunnels: self.tunnels.previous(), ..self }
        } else {
            self
        }
    }

    /// The cursor of the list on the active tab moves one item forward.
    pub open spec fn on_down(self) -> AppModel {
        if self.tabs.index == PEERS_TAB {
            AppModel { peers: self.peers.next(), ..self }
        } else if self.tabs.index == CLIENTS_TAB {
            AppModel { clients: self.clients.next(), ..self }
        } else if self.tabs.index == INSTANCES_TAB {
            AppModel { instances: self.instances.next(), ..self }
        } else if self.tabs.index == SERVICES_TAB {
            AppModel { services: self.services.next(), ..self }
        } else if self.tabs.index == ENVS_TAB {
            AppModel { envs: self.envs.next(), ..self }
        } else if self.tabs.index == TUNNELS_TAB {
            AppModel { tunnels: self.tunnels.next(), ..self }
        } else {
            self
        }
    }

    /// The side panels rotate forward.
    pub open spec fn next_block_view(self) -> AppModel {
        AppModel { layout: self.layout.rotate_forward(), ..self }
    }

    /// The side panels rotate backward.
    pub open spec fn previous_block_view(self) -> AppModel {
        AppModel { layout: self.layout.rotate_backward(), ..self }
    }

    /// The next template of side panels is taken; the rotation stays.
    pub open spec fn change_mode_view(self) -> AppModel {
        AppModel { layout: self.layout.set_mode(self.layout.mode.spec_next()), ..self }
    }

    /// The dashboard is told to stop.
    pub open spec fn quit(self) -> AppModel {
        AppModel { running: false, ..self }
    }

    /// The pop-up is shown.
    pub open spec fn open_popup(self) -> AppModel {
        AppModel { modal: self.modal.open(), ..self }
    }

    /// The pop-up is hidden and its text dropped.
    pub open spec fn close_popup(self) -> AppModel {
        AppModel { modal: ModalModel::closed(), ..self }
    }

    /// A run of the control tool with `args` joins the runs, not yet started.
    pub open spec fn launch(self, args: Seq<Seq<char>>) -> AppModel {
        AppModel {
            commands: self.commands.push(TaskModel { args, status: StatusModel::Pending }),
            ..self
        }
    }

    /// Enter in the pop-up, given whether its text is valid: a valid text
    /// closes the pop-up and asks for a run that connects to it; any other
    /// changes nothing.
    pub open spec fn connect(self, valid: bool) -> AppModel {
        if self.modal.accepts(valid) {
            (AppModel { modal: ModalModel::closed(), ..self }).launch(
                seq![CONNECT_VERB@, self.modal.buffer],
            )
        } else {
            self
        }
    }

    /// The run asked for by enter in the pop-up, if any.
    pub open spec fn connect_started(self, valid: bool) -> Option<nat> {
        if self.modal.accepts(valid) {
            Some(self.commands.len())
        } else {
            None
        }
    }

    /// The arguments of the run that the execute key asks for: on the tab of
    /// the services, with a service selected, that service is executed.
    pub open spec fn execute_args(self) -> Option<Seq<Seq<char>>> {
        if self.tabs.index == SERVICES_TAB && self.services.selected_id is Some {
            Some(seq![EXECUTE_VERB@, self.services.selected_id->0])
        } else {
            None
        }
    }

    /// The arguments of the run that the delete key asks for: on the tab of
    /// the peers, with a peer selected, that peer is pruned.
    pub open spec fn prune_args(self) -> Option<Seq<Seq<char>>> {
        if self.tabs.index == PEERS_TAB && self.peers.selected_id is Some {
            Some(seq![PRUNE_PEER_VERB@, self.peers.selected_id->0])
        } else {
            None
        }
    }

    /// The dashboard after a key that may ask for a run with `args`.
    pub open spec fn launch_if(self, args: Option<Seq<Seq<char>>>) -> AppModel {
        match args {
            Some(args) => self.launch(args),
            None => self,
        }
    }

    /// The run that a key asks for when it asks for one with `args`.
    pub open spec fn started_if(self, args: Option<Seq<Seq<char>>>) -> Option<nat> {
        match args {
            Some(_) => Some(self.commands.len()),
            None => None,
        }
    }

    /// The execute key.
    pub open spec fn press_e(self) -> AppModel {
        self.launch_if(self.execute_args())
    }

    /// The delete key.
    pub open spec fn press_d(self) -> AppModel {
        self.launch_if(self.prune_args())
    }

    /// A tick: every list takes the fresh records of its kind and each chart one new sample.
    pub open spec fn refresh(self, inventory: Inventory, ram: u64, cpu: u64) -> AppModel {
        AppModel {
            peers: self.peers.refresh(inventory.peers@),
            clients: self.clients.refresh(inventory.clients@),
            instances: self.instances.refresh(inventory.instances@),
            services: self.services.refresh(inventory.services@),
            envs: self.envs.refresh(inventory.envs@),
            tunnels: self.tunnels.refresh(inventory.tunnels@),
            ram_usage: self.ram_usage.push(ram),
            cpu_usage: self.cpu_usage.push(cpu),
            ..self
        }
    }

    /// News of run `task`: its status moves on and what is to be logged is
    /// appended to the log. News of a run that does not exist changes nothing.
    pub open spec fn on_command_event(self, task: nat, event: EventModel) -> AppModel {
        if task < self.commands.len() {
            let before = self.commands[task as int];
            AppModel {
                commands: self.commands.update(
                    task as int,
                    TaskModel { args: before.args, status: before.status.after(event) },
                ),
                logs: self.logs + before.status.logged(event),
                ..self
            }
        } else {
            self
        }
    }
}

/// News of a run changes nothing but the runs and the log; the log only
/// grows, at its end; and no run joins or leaves.
pub proof fn law_command_news_only_logs(app: AppModel, task: nat, event: EventModel)
    ensures
        app.on_command_event(task, event) == (AppModel {
            commands: app.on_command_event(task, event).commands,
            logs: app.on_command_event(task, event).logs,
            ..app
        }),
        app.logs.is_prefix_of(app.on_command_event(task, event).logs),
        app.on_command_event(task, event).commands.len() == app.commands.len(),
{
}

/// An execute or delete key without a selection to act on changes nothing.
pub proof fn law_action_needs_selection(app: AppModel)
    ensures
        app.services.selected_id is None ==> app.press_e() == app,
        app.peers.selected_id is None ==> app.press_d() == app,
{
}

/// The dashboard.
pub struct App<'a> {
    /// The title on the frame.
    pub title: &'a str,
    /// The tab bar.
    pub tabs: TabsState<'a>,
    /// Whether the dashboard goes on; the event loop ends once this is false.
    pub running: bool,
    /// What the runs of the control tool wrote and how they ended.
    pub logs: Vec<LogEntry>,
    /// The runs of the control tool that were asked for, oldest first.
    pub commands: Vec<CommandTask>,
    pub peers: StatefulList<Peer>,
    pub clients: StatefulList<Client>,
    pub instances: StatefulList<Container>,
    pub services: StatefulList<Service>,
    pub envs: StatefulList<Env>,
    pub tunnels: StatefulList<Tunnel>,
    /// The history of memory use, in percent.
    pub ram_usage: MetricRingBuffer,
    /// The history of processor use, in percent.
    pub cpu_usage: MetricRingBuffer,
    /// The side panels.
    pub layout: LayoutRotator,
    /// The pop-up that asks for a peer to connect to.
    pub modal: ConnectModal,
}

/// The runs of a dashboard, each as its model.
pub open spec fn commands_view(commands: Seq<CommandTask>) -> Seq<TaskModel> {
    commands.map_values(|task: CommandTask| task@)
}

impl<'a> View for App<'a> {
    type V = AppModel;

    open spec fn view(&self) -> AppModel {
        AppModel {
            title: self.title@,
            tabs: self.tabs@,
            running: self.running,
            logs: log_view(self.logs@),
            commands: commands_view(self.commands@),
            peers: self.peers@,
            clients: self.clients@,
            instances: self.instances@,
            services: self.services@,
            envs: self.envs@,
            tunnels: self.tunnels@,
            ram_usage: self.ram_usage@,
            cpu_usage: self.cpu_usage@,
            layout: self.layout@,
            modal: self.modal@,
        }
    }
}

impl<'a> App<'a> {
    /// The dashboard at start, over what the node holds at that moment.
    pub fn new(inventory: Inventory) -> (app: App<'a>)
        ensures
            app@ == AppModel::initial(inventory),
    {
        let titles: Vec<&'a str> = vec![
            "PEERS",
            "CLIENTS",
            "INSTANCES",
            "SERVICES",
            "ENVS",
            "TUNNELS",
        ];
        let kinds: Vec<String> = vec![
            "ram-usage".to_owned(),
            "cpu-usage".to_owned(),
            "tui-logs".to_owned(),
            "logs".to_owned(),
        ];
        proof {
            assert(titles@.map_values(|t: &str| t@) =~= tab_titles());
            assert(names_view(kinds@) =~= panel_kinds());
        }
        let app = App {
            title: TITLE,
            tabs: TabsState::new(titles),
            running: true,
            logs: Vec::new(),
            commands: Vec::new(),
            peers: StatefulList::with_items(inventory.peers),
            clients: StatefulList::with_items(inventory.clients),
            instances: StatefulList::with_items(inventory.instances),
            services: StatefulList::with_items(inventory.services),
            envs: StatefulList::with_items(inventory.envs),
            tunnels: StatefulList::with_items(inventory.tunnels),
            ram_usage: MetricRingBuffer::new(RAM_TIMES),
            cpu_usage: MetricRingBuffer::new(CPU_TIMES),
            layout: LayoutRotator::new(LayoutMode::Hidden, kinds),
            modal: ConnectModal::new(),
        };
        proof {
            assert(app@.logs =~= seq![]);
            assert(app@.commands =~= seq![]);
        }
        app
    }

    /// Activates the tab to the right.
    pub fn on_right(&mut self)
        ensures
            final(self)@ == old(self)@.on_right(),
    {
        self.tabs.next();
    }

    /// Activates the tab to the left.
    pub fn on_left(&mut self)
        ensures
            final(self)@ == old(self)@.on_left(),
    {
        self.tabs.previous();
    }

    /// Moves the cursor of the list on the active tab one item back.
    pub fn on_up(&mut self)
        ensures
            final(self)@ == old(self)@.on_up(),
    {
        let tab: usize = self.tabs.index();
        if tab == PEERS_TAB {
            self.peers.previous();
        } else if tab == CLIENTS_TAB {
            self.clients.previous();
        } else if tab == INSTANCES_TAB {
            self.instances.previous();
        } else if tab == SERVICES_TAB {
            self.services.previous();
        } else if tab == ENVS_TAB {
            self.envs.previous();
        } else if tab == TUNNELS_TAB {
            self.tunnels.previous();
        }
    }

    /// Moves the cursor of the list on the active tab one item forward.
    pub fn on_down(&mut self)
        ensures
            final(self)@ == old(self)@.on_down(),
    {
        let tab: usize = self.tabs.index();
        if tab == PEERS_TAB {
            self.peers.next();
        } else if tab == CLIENTS_TAB {
            self.clients.next();
        } else if tab == INSTANCES_TAB {
            self.instances.next();
        } else if tab == SERVICES_TAB {
            self.services.next();
        } else if tab == ENVS_TAB {
            self.envs.next();
        } else if tab == TUNNELS_TAB {
            self.tunnels.next();
        }
    }

    /// Rotates the side panels forward.
    pub fn next_block_view(&mut self)
        ensures
            final(self)@ == old(self)@.next_block_view(),
    {
        self.layout.rotate_forward();
    }

    /// Rotates the side panels backward.
    pub fn previous_block_view(&mut self)
        ensures
            final(self)@ == old(self)@.previous_block_view(),
    {
        self.layout.rotate_backward();
    }

    /// Takes the next template of side panels.
    pub fn change_mode_view(&mut self)
        ensures
            final(self)@ == old(self)@.change_mode_view(),
    {
        let mode: LayoutMode = self.layout.mode().next();
        self.layout.set_mode(mode);
    }

    /// A tick of the clock by itself changes nothing.
    pub fn tick(&self) {
    }

    /// Tells the dashboard to stop.
    pub fn quit(&mut self)
        ensures
            final(self)@ == old(self)@.quit(),
    {
        self.running = false;
    }

    /// Shows the pop-up.
    pub fn open_popup(&mut self)
        ensures
            final(self)@ == old(self)@.open_popup(),
    {
        self.modal.open();
    }

    /// Hides the pop-up and drops its text.
    pub fn close_popup(&mut self)
        ensures
            final(self)@ == old(self)@.close_popup(),
    {
        self.modal.close();
    }

    /// Adds a run of the control tool with `args`, not yet started. Returns
    /// its place among the runs, by which its events are reported.
    pub fn launch(&mut self, args: Vec<String>) -> (task: usize)
        ensures
            final(self)@ == old(self)@.launch(names_view(args@)),
            task == old(self)@.commands.len(),
    {
        let task: usize = self.commands.len();
        self.commands.push(CommandTask::new(args));
        assert(commands_view(self.commands@) =~= commands_view(old(self).commands@).push(
            TaskModel { args: names_view(args@), status: StatusModel::Pending },
        ));
        task
    }

    /// Enter in the pop-up, with the verdict on its text given by the
    /// caller. A valid text closes the pop-up and asks for a run that
    /// connects to it; the run's place is returned.
    pub fn connect_checked(&mut self, valid: bool) -> (started: Option<usize>)
        ensures
            final(self)@ == old(self)@.connect(valid),
            position_view(started) == old(self)@.connect_started(valid),
    {
        match self.modal.submit_checked(valid) {
            Some(address) => {
                let args: Vec<String> = vec![CONNECT_VERB.to_owned(), address];
                assert(names_view(args@) =~= seq![CONNECT_VERB@, old(self)@.modal.buffer]);
                let task: usize = self.launch(args);
                Some(task)
            },
            None => None,
        }
    }

    /// Enter in the pop-up. A text that is an address closes the pop-up and
    /// asks for a run that connects to it; any other text stays as it is.
    pub fn connect(&mut self) -> (started: Option<usize>)
        ensures
            final(self)@ == old(self)@.connect(is_address(old(self)@.modal.buffer)),
            position_view(started) == old(self)@.connect_started(
                is_address(old(self)@.modal.buffer),
            ),
    {
        let valid: bool = self.modal.is_valid();
        self.connect_checked(valid)
    }

    /// The delete key: on the tab of the peers, asks for a run that prunes
    /// the selected peer. Without a selection, and on any other tab, nothing
    /// happens.
    pub fn press_d(&mut self) -> (started: Option<usize>)
        ensures
            final(self)@ == old(self)@.press_d(),
            position_view(started) == old(self)@.started_if(old(self)@.prune_args()),
    {
        if self.tabs.index() != PEERS_TAB {
            return None;
        }
        let args: Vec<String> = match self.peers.selected_id() {
            Some(id) => vec![PRUNE_PEER_VERB.to_owned(), id.to_owned()],
            None => {
                return None;
            },
        };
        assert(names_view(args@) =~= old(self)@.prune_args()->0);
        let task: usize = self.launch(args);
        Some(task)
    }

    /// The execute key: on the tab of the services, asks for a run that
    /// executes the selected service. Without a selection, and on any other
    /// tab, nothing happens.
    pub fn press_e(&mut self) -> (started: Option<usize>)
        ensures
            final(self)@ == old(self)@.press_e(),
            position_view(started) == old(self)@.started_if(old(self)@.execute_args()),
    {
        if self.tabs.index() != SERVICES_TAB {
            return None;
        }
        let args: Vec<String> = match self.services.selected_id() {
            Some(id) => vec![EXECUTE_VERB.to_owned(), id.to_owned()],
            None => {
                return None;
            },
        };
        assert(names_view(args@) =~= old(self)@.execute_args()->0);
        let task: usize = self.launch(args);
        Some(task)
    }

    /// A tick: replaces the records of every list by those of `inventory`
    /// and records one sample of memory use and one of processor use.
    pub fn refresh(&mut self, inventory: Inventory, ram: u64, cpu: u64)
        ensures
            final(self)@ == old(self)@.refresh(inventory, ram, cpu),
    {
        self.peers.refresh(inventory.peers);
        self.clients.refresh(inventory.clients);
        self.instances.refresh(inventory.instances);
        self.services.refresh(inventory.services);
        self.envs.refresh(inventory.envs);
        self.tunnels.refresh(inventory.tunnels);
        self.ram_usage.push(ram);
        self.cpu_usage.push(cpu);
    }

    /// Takes note of news of run `task`: its status moves on, and its output
    /// and its end are appended to the log. Nothing else changes.
    pub fn on_command_event(&mut self, task: usize, event: CommandEvent)
        ensures
            final(self)@ == old(self)@.on_command_event(task as nat, event@),
    {
        if task < self.commands.len() {
            self.commands[task].on_event(event, &mut self.logs);
            proof {
                let before = old(self).commands@[task as int]@;
                assert(commands_view(self.commands@) =~= commands_view(old(self).commands@).update(
                    task as int,
                    TaskModel { args: before.args, status: before.status.after(event@) },
                ));
            }
        }
    }

    /// The last `count` lines of the log, as the log panel shows them.
    pub fn tui_log_lines(&self, count: usize) -> (lines: Vec<String>)
        ensures
            names_view(lines@) == last_of(self@.logs, count as nat).map_values(
                |line: LogLine| line.shown(),
            ),
    {
        let total: usize = self.logs.len();
        let from: usize = if total > count {
            total - count
        } else {
            0
        };
        let mut lines: Vec<String> = Vec::new();
        let mut n: usize = from;
        while n < total
            invariant
                from <= n <= total,
                total == self.logs.len(),
                lines@.len() == n - from,
                forall|i: int|
                    0 <= i < lines@.len() ==> (#[trigger] lines@[i])@ == self.logs@[from
                        + i]@.shown(),
            decreases total - n,
        {
            lines.push(self.logs[n].shown());
            n += 1;
        }
        lines
    }
}

} // verus!
