//! The static application menu, as a table of commands.
//!
//! The dispatcher works against a fixed, compile-time table of command
//! identifiers; this module states that table once, immutable after
//! construction and rebuilt only on application restart.  Display labels
//! and accelerators are presentation that the GUI host owns; what the core
//! fixes is which commands exist, in which order, and which are enabled —
//! the developer tools in development builds alone.

use vstd::prelude::*;
use crate::dispatch::CommandId;

verus! {

/// One entry of the command table.
#[derive(Clone, Copy, Debug, PartialEq, Eq, Structural)]
pub struct MenuEntry {
    pub id: CommandId,
    pub enabled: bool,
}

/// The command table for a build mode.
pub open spec fn spec_menu(dev: bool) -> Seq<MenuEntry> {
    seq![
        MenuEntry { id: CommandId::CheckUpdates, enabled: true },
        MenuEntry { id: CommandId::PrefOpenConfig, enabled: true },
        MenuEntry { id: CommandId::PrefRestart, enabled: true },
        MenuEntry { id: CommandId::PrefAwesome, enabled: true },
        MenuEntry { id: CommandId::PrefAbout, enabled: true },
        MenuEntry { id: CommandId::ToggleDarkmode, enabled: true },
        MenuEntry { id: CommandId::Reload, enabled: true },
        MenuEntry { id: CommandId::ToggleDevtools, enabled: dev },
        MenuEntry { id: CommandId::ViewBack, enabled: true },
        MenuEntry { id: CommandId::ViewForward, enabled: true },
        MenuEntry { id: CommandId::ToggleStayOnTop, enabled: true },
        MenuEntry { id: CommandId::HelpLog, enabled: true },
        MenuEntry { id: CommandId::HelpUpdateLog, enabled: true },
        MenuEntry { id: CommandId::HelpReportBug, enabled: true },
    ]
}

/// Build the command table.  Every command is enabled except the developer
/// tools, which only development builds enable.
pub fn build_menu(dev_build: bool) -> (m: Vec<MenuEntry>)
    ensures
        m@ == spec_menu(dev_build),
        forall|k: int| #![auto]
            0 <= k < m@.len() ==> (m@[k].enabled <==> (m@[k].id != CommandId::ToggleDevtools
                || dev_build)),
{
    let m = vec![
        MenuEntry { id: CommandId::CheckUpdates, enabled: true },
        MenuEntry { id: CommandId::PrefOpenConfig, enabled: true },
        MenuEntry { id: CommandId::PrefRestart, enabled: true },
        MenuEntry { id: CommandId::PrefAwesome, enabled: true },
        MenuEntry { id: CommandId::PrefAbout, enabled: true },
        MenuEntry { id: CommandId::ToggleDarkmode, enabled: true },
        MenuEntry { id: CommandId::Reload, enabled: true },
        MenuEntry { id: CommandId::ToggleDevtools, enabled: dev_build },
        MenuEntry { id: CommandId::ViewBack, enabled: true },
        MenuEntry { id: CommandId::ViewForward, enabled: true },
        MenuEntry { id: CommandId::ToggleStayOnTop, enabled: true },
        MenuEntry { id: CommandId::HelpLog, enabled: true },
        MenuEntry { id: CommandId::HelpUpdateLog, enabled: true },
        MenuEntry { id: CommandId::HelpReportBug, enabled: true },
    ];
    proof {
        assert(m@ =~= spec_menu(dev_build));
    }
    m
}

} // verus!
