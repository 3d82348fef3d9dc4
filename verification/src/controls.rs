//! The line of hints at the bottom of the screen.

use crate::app::{
    App, AppModel, CLIENTS_TAB, ENVS_TAB, INSTANCES_TAB, PEERS_TAB, SERVICES_TAB,
};
use vstd::prelude::*;
use vstd::string::StringExecFns;

verus! {

/// How to move through tabs and rows.
pub const HINT_NAVIGATE: &'static str = "Left/Right for menu  |  Up/Down for table rows";

/// How to rotate the side panels.
pub const HINT_ROTATE: &'static str = "  |  Press 'o' and 'p' to rotate the block views sections";

/// How to change the template of the side panels.
pub const HINT_MODE: &'static str = "  |  Press 'm' to change the block view layout";

/// What can be done with the selected peer.
pub const HINT_DELETE_PEER: &'static str = "  |  Press 'd' to delete the peer.";

/// What can be done with the selected client.
pub const HINT_DELETE_CLIENT: &'static str = "  |  Press 'd' to delete the client.";

/// What can be done with the selected instance.
pub const HINT_DELETE_INSTANCE: &'static str = "  |  Press 'd' to delete the instance.";

/// What can be done with the selected service.
pub const HINT_SERVICE: &'static str =
    "  |  Press 'e' to execute an instance.  |  Press 'd' to delete the service.";

/// What can be done with the selected variable.
pub const HINT_EDIT: &'static str = "  |  Press 'e' to edit.";

/// How to close the pop-up.
pub const HINT_CLOSE: &'static str = "  |  Press 'esc' to close";

/// How to open the pop-up.
pub const HINT_CONNECT: &'static str = "  |  Press 'c' to connect to a new peer";

/// The hint for the selected row: what can be done with a record of the
/// kind on the active tab, and nothing where no row is selected.
pub open spec fn row_hint(app: AppModel) -> Seq<char> {
    if app.tabs.index == PEERS_TAB && app.peers.selected_id is Some {
        HINT_DELETE_PEER@
    } else if app.tabs.index == CLIENTS_TAB && app.clients.selected_id is Some {
        HINT_DELETE_CLIENT@
    } else if app.tabs.index == INSTANCES_TAB && app.instances.selected_id is Some {
        HINT_DELETE_INSTANCE@
    } else if app.tabs.index == SERVICES_TAB && app.services.selected_id is Some {
        HINT_SERVICE@
    } else if app.tabs.index == ENVS_TAB && app.envs.selected_id is Some {
        HINT_EDIT@
    } else {
        seq![]
    }
}

/// The hint for the pop-up, given on the tab of the peers: how to close it
/// while it is shown, how to open it while it is not.
pub open spec fn popup_hint(app: AppModel) -> Seq<char> {
    if app.tabs.index != PEERS_TAB {
        seq![]
    } else if app.modal.is_open {
        HINT_CLOSE@
    } else {
        HINT_CONNECT@
    }
}

/// The whole line of hints: the three that are always given, then the one
/// for the selected row, then the one for the pop-up.
pub open spec fn controls_text(app: AppModel) -> Seq<char> {
    HINT_NAVIGATE@ + HINT_ROTATE@ + HINT_MODE@ + row_hint(app) + popup_hint(app)
}

/// The line of hints for the dashboard as it stands.
pub fn get_controls_text(app: &App<'_>) -> (text: String)
    ensures
        text@ == controls_text(app@),
{
    let tab: usize = app.tabs.index();
    let mut text: String = String::new();
    text.append(HINT_NAVIGATE);
    text.append(HINT_ROTATE);
    text.append(HINT_MODE);
    if tab == PEERS_TAB {
        if app.peers.selected_id().is_some() {
            text.append(HINT_DELETE_PEER);
        }
    } else if tab == CLIENTS_TAB {
        if app.clients.selected_id().is_some() {
            text.append(HINT_DELETE_CLIENT);
        }
    } else if tab == INSTANCES_TAB {
        if app.instances.selected_id().is_some() {
            text.append(HINT_DELETE_INSTANCE);
        }
    } else if tab == SERVICES_TAB {
        if app.services.selected_id().is_some() {
            text.append(HINT_SERVICE);
        }
    } else if tab == ENVS_TAB {
        if app.envs.selected_id().is_some() {
            text.append(HINT_EDIT);
        }
    }
    if tab == PEERS_TAB {
        if app.modal.is_open() {
            text.append(HINT_CLOSE);
        } else {
            text.append(HINT_CONNECT);
        }
    }
    text
}

} // verus!
