//! The menu command dispatcher: a closed table from command identifiers to
//! effects.
//!
//! Every known identifier is a variant of `CommandId`, checked exhaustively
//! at compile time; a string that names no variant is silently ignored, a
//! defensive default rather than an error channel.  Dispatch issues exactly
//! one command's effect before the next command is looked at; work that can
//! suspend (the update cycle) is handed to the driver as an effect and
//! never blocks dispatch.

use vstd::prelude::*;
use crate::effect::{Effect, EffectView};
use crate::json::str_eq;
use crate::theme::Theme;
use crate::update::{fx_views, spec_start, SessionView, UpdateSession};
use crate::windows::{
    config_label, core_label, find_index, label_config, label_core, spec_core_theme, spec_ensure,
    spec_set_theme, ContentSource, EnsureOutcome, SourceView, WindowRegistry, WindowView,
};

verus! {

/// The closed set of menu and tray commands.
#[derive(Clone, Copy, Debug, PartialEq, Eq, Structural)]
pub enum CommandId {
    CheckUpdates,
    PrefOpenConfig,
    PrefRestart,
    PrefAwesome,
    PrefAbout,
    ToggleDarkmode,
    Reload,
    ToggleDevtools,
    ViewBack,
    ViewForward,
    ToggleStayOnTop,
    HelpLog,
    HelpUpdateLog,
    HelpReportBug,
}

/// The command a string identifier names, if any.
pub open spec fn spec_parse_command(s: Seq<char>) -> Option<CommandId> {
    if s == "check-updates"@ {
        Some(CommandId::CheckUpdates)
    } else if s == "pref-open-config"@ {
        Some(CommandId::PrefOpenConfig)
    } else if s == "pref-restart"@ {
        Some(CommandId::PrefRestart)
    } else if s == "pref-awesome"@ {
        Some(CommandId::PrefAwesome)
    } else if s == "pref-about"@ {
        Some(CommandId::PrefAbout)
    } else if s == "toggle-darkmode"@ {
        Some(CommandId::ToggleDarkmode)
    } else if s == "reload"@ {
        Some(CommandId::Reload)
    } else if s == "toggle-devtools"@ {
        Some(CommandId::ToggleDevtools)
    } else if s == "view-back"@ {
        Some(CommandId::ViewBack)
    } else if s == "view-forward"@ {
        Some(CommandId::ViewForward)
    } else if s == "toggle-stay-on-top"@ {
        Some(CommandId::ToggleStayOnTop)
    } else if s == "help-log"@ {
        Some(CommandId::HelpLog)
    } else if s == "help-update-log"@ {
        Some(CommandId::HelpUpdateLog)
    } else if s == "help-report-bug"@ {
        Some(CommandId::HelpReportBug)
    } else {
        None
    }
}

/// Resolve a command identifier.
pub fn parse_command(id: &str) -> (r: Option<CommandId>)
    ensures
        r == spec_parse_command(id@),
{
    if str_eq(id, "check-updates") {
        Some(CommandId::CheckUpdates)
    } else if str_eq(id, "pref-open-config") {
        Some(CommandId::PrefOpenConfig)
    } else if str_eq(id, "pref-restart") {
        Some(CommandId::PrefRestart)
    } else if str_eq(id, "pref-awesome") {
        Some(CommandId::PrefAwesome)
    } else if str_eq(id, "pref-about") {
        Some(CommandId::PrefAbout)
    } else if str_eq(id, "toggle-darkmode") {
        Some(CommandId::ToggleDarkmode)
    } else if str_eq(id, "reload") {
        Some(CommandId::Reload)
    } else if str_eq(id, "toggle-devtools") {
        Some(CommandId::ToggleDevtools)
    } else if str_eq(id, "view-back") {
        Some(CommandId::ViewBack)
    } else if str_eq(id, "view-forward") {
        Some(CommandId::ViewForward)
    } else if str_eq(id, "toggle-stay-on-top") {
        Some(CommandId::ToggleStayOnTop)
    } else if str_eq(id, "help-log") {
        Some(CommandId::HelpLog)
    } else if str_eq(id, "help-update-log") {
        Some(CommandId::HelpUpdateLog)
    } else if str_eq(id, "help-report-bug") {
        Some(CommandId::HelpReportBug)
    } else {
        None
    }
}

/// Where the primary window points, by build mode: development builds use
/// the local development server, release builds the production address.
pub open spec fn core_source_view(dev: bool) -> SourceView {
    if dev {
        SourceView::External("http://localhost:1420"@)
    } else {
        SourceView::External("https://chatgpt.com"@)
    }
}

/// Where the settings window points, by build mode.
pub open spec fn config_source_view(dev: bool) -> SourceView {
    if dev {
        SourceView::External("http://localhost:1420/#/config"@)
    } else {
        SourceView::App("index.html#/config"@)
    }
}

/// The issue tracker opened by the bug-report command.
pub open spec fn bug_report_url() -> Seq<char> {
    "https://github.com/SpellboundScents/ChatGPT/issues/new"@
}

/// The primary window's content source for this build mode.
pub fn core_source(dev: bool) -> (r: ContentSource)
    ensures
        r@ == core_source_view(dev),
{
    if dev {
        ContentSource::External(
            <String as vstd::string::StringExecFns>::from_str("http://localhost:1420"),
        )
    } else {
        ContentSource::External(
            <String as vstd::string::StringExecFns>::from_str("https://chatgpt.com"),
        )
    }
}

/// The settings window's content source for this build mode.
pub fn config_source(dev: bool) -> (r: ContentSource)
    ensures
        r@ == config_source_view(dev),
{
    if dev {
        ContentSource::External(
            <String as vstd::string::StringExecFns>::from_str("http://localhost:1420/#/config"),
        )
    } else {
        ContentSource::App(
            <String as vstd::string::StringExecFns>::from_str("index.html#/config"),
        )
    }
}

/// What one dispatched command does: how the windows and the update
/// session move, and which effects come back, given the state the shell
/// was in.
pub open spec fn dispatch_rel(
    cmd: CommandId,
    w0: Seq<WindowView>,
    u0: SessionView,
    dev: bool,
    w1: Seq<WindowView>,
    u1: SessionView,
    fx: Seq<EffectView>,
) -> bool {
    match cmd {
        CommandId::CheckUpdates => {
            &&& w1 == w0
            &&& u1 == spec_start(u0, false).0
            &&& fx == if spec_start(u0, false).1 {
                seq![EffectView::StartUpdateCheck { silent: false }]
            } else {
                Seq::<EffectView>::empty()
            }
        },
        CommandId::PrefOpenConfig => {
            &&& u1 == u0
            &&& w1 == spec_ensure(w0, label_config(), config_source_view(dev))
            &&& fx == if find_index(w0, label_config()) == -1 {
                seq![
                    EffectView::CreateWindow {
                        label: label_config(),
                        source: config_source_view(dev),
                    },
                ]
            } else {
                seq![EffectView::ShowFocus { label: label_config() }]
            }
        },
        CommandId::PrefRestart => {
            &&& w1 == w0
            &&& u1 == u0
            &&& fx == seq![EffectView::Restart]
        },
        CommandId::PrefAwesome => {
            &&& u1 == u0
            &&& w1 == spec_ensure(w0, label_config(), config_source_view(dev))
            &&& fx == (if find_index(w0, label_config()) == -1 {
                seq![
                    EffectView::CreateWindow {
                        label: label_config(),
                        source: config_source_view(dev),
                    },
                ]
            } else {
                seq![EffectView::ShowFocus { label: label_config() }]
            }).push(
                EffectView::EmitAll { event: "open-awesome"@, payload: Seq::<char>::empty() },
            )
        },
        CommandId::PrefAbout => {
            &&& w1 == w0
            &&& u1 == u0
            &&& fx == seq![
                EffectView::EmitAll { event: "open-about"@, payload: Seq::<char>::empty() },
            ]
        },
        CommandId::ToggleDarkmode => {
            let next = spec_core_theme(w0).spec_toggled();
            &&& u1 == u0
            &&& w1 == spec_set_theme(w0, next)
            &&& fx == seq![
                EffectView::ApplyTheme { theme: next },
                EffectView::EmitAll {
                    event: "menu-toggle-dark"@,
                    payload: Seq::<char>::empty(),
                },
                EffectView::PersistTheme { theme: next },
            ]
        },
        CommandId::Reload => {
            &&& w1 == w0
            &&& u1 == u0
            &&& fx == seq![EffectView::Reload { label: label_core() }]
        },
        CommandId::ToggleDevtools => {
            &&& w1 == w0
            &&& u1 == u0
            &&& fx == if dev {
                seq![EffectView::OpenDevtools { label: label_core() }]
            } else {
                Seq::<EffectView>::empty()
            }
        },
        CommandId::ViewBack => {
            &&& w1 == w0
            &&& u1 == u0
            &&& fx == seq![EffectView::HistoryBack { label: label_core() }]
        },
        CommandId::ViewForward => {
            &&& w1 == w0
            &&& u1 == u0
            &&& fx == seq![EffectView::HistoryForward { label: label_core() }]
        },
        CommandId::ToggleStayOnTop => {
            let i = find_index(w0, label_core());
            &&& u1 == u0
            &&& if i >= 0 {
                let v = !w0[i].always_on_top;
                &&& w1 == w0.update(i, WindowView { always_on_top: v, ..w0[i] })
                &&& fx == seq![EffectView::SetAlwaysOnTop { label: label_core(), value: v }]
            } else {
                &&& w1 == w0
                &&& fx == Seq::<EffectView>::empty()
            }
        },
        CommandId::HelpLog => {
            &&& w1 == w0
            &&& u1 == u0
            &&& fx == seq![
                EffectView::EmitAll { event: "open-chatgpt-log"@, payload: Seq::<char>::empty() },
            ]
        },
        CommandId::HelpUpdateLog => {
            &&& w1 == w0
            &&& u1 == u0
            &&& fx == seq![
                EffectView::EmitAll { event: "open-update-log"@, payload: Seq::<char>::empty() },
            ]
        },
        CommandId::HelpReportBug => {
            &&& w1 == w0
            &&& u1 == u0
            &&& fx == seq![EffectView::OpenExternal { url: bug_report_url() }]
        },
    }
}

/// The application shell: the window registry, the one update session,
/// and the build mode that picks content sources and enables the
/// developer tools.
pub struct AppShell {
    pub windows: WindowRegistry,
    pub update: UpdateSession,
    pub dev_build: bool,
}

impl AppShell {
    /// The shell invariant: the registry's labels are unique.
    pub open spec fn wf(self) -> bool {
        self.windows.wf()
    }

    /// A fresh shell: no windows, an idle update session.
    pub fn new(dev_build: bool, preserve_core: bool) -> (s: AppShell)
        ensures
            s.wf(),
            s.windows@ == Seq::<WindowView>::empty(),
            s.update@ == SessionView::spec_idle(),
            s.dev_build == dev_build,
            s.windows.preserves_core() == preserve_core,
    {
        AppShell {
            windows: WindowRegistry::new(preserve_core),
            update: UpdateSession::new(),
            dev_build,
        }
    }

    /// Dispatch one command: look it up in the closed table, apply its one
    /// effect to the shell state, and hand the outward side effects to the
    /// driver.  Returns at once; nothing here suspends.
    pub fn dispatch(&mut self, cmd: CommandId) -> (fx: Vec<Effect>)
        requires
            old(self).wf(),
        ensures
            final(self).wf(),
            final(self).dev_build == old(self).dev_build,
            final(self).windows.preserves_core() == old(self).windows.preserves_core(),
            dispatch_rel(
                cmd,
                old(self).windows@,
                old(self).update@,
                old(self).dev_build,
                final(self).windows@,
                final(self).update@,
                fx_views(fx@),
            ),
    {
        let mut fx: Vec<Effect> = Vec::new();
        match cmd {
            CommandId::CheckUpdates => {
                let started = self.update.start_check(false);
                if started {
                    fx.push(Effect::StartUpdateCheck { silent: false });
                }
                proof {
                    if spec_start(old(self).update@, false).1 {
                        assert(fx_views(fx@) =~= seq![
                            EffectView::StartUpdateCheck { silent: false },
                        ]);
                    } else {
                        assert(fx_views(fx@) =~= Seq::<EffectView>::empty());
                    }
                }
            },
            CommandId::PrefOpenConfig => {
                let outcome = self.windows.ensure_or_focus(
                    config_label(),
                    config_source(self.dev_build),
                );
                match outcome {
                    EnsureOutcome::Created => {
                        fx.push(
                            Effect::CreateWindow {
                                label: <String as vstd::string::StringExecFns>::from_str(
                                    "config",
                                ),
                                source: config_source(self.dev_build),
                            },
                        );
                        proof {
                            reveal_strlit("config");
                            assert("config"@ =~= label_config());
                            assert(fx_views(fx@) =~= seq![
                                EffectView::CreateWindow {
                                    label: label_config(),
                                    source: config_source_view(old(self).dev_build),
                                },
                            ]);
                        }
                    },
                    EnsureOutcome::Focused => {
                        fx.push(
                            Effect::ShowFocus {
                                label: <String as vstd::string::StringExecFns>::from_str(
                                    "config",
                                ),
                            },
                        );
                        proof {
                            reveal_strlit("config");
                            assert("config"@ =~= label_config());
                            assert(fx_views(fx@) =~= seq![
                                EffectView::ShowFocus { label: label_config() },
                            ]);
                        }
                    },
                }
            },
            CommandId::PrefRestart => {
                fx.push(Effect::Restart);
                proof {
                    assert(fx_views(fx@) =~= seq![EffectView::Restart]);
                }
            },
            CommandId::PrefAwesome => {
                let outcome = self.windows.ensure_or_focus(
                    config_label(),
                    config_source(self.dev_build),
                );
                match outcome {
                    EnsureOutcome::Created => {
                        fx.push(
                            Effect::CreateWindow {
                                label: <String as vstd::string::StringExecFns>::from_str(
                                    "config",
                                ),
                                source: config_source(self.dev_build),
                            },
                        );
                    },
                    EnsureOutcome::Focused => {
                        fx.push(
                            Effect::ShowFocus {
                                label: <String as vstd::string::StringExecFns>::from_str(
                                    "config",
                                ),
                            },
                        );
                    },
                }
                fx.push(
                    Effect::EmitAll {
                        event: <String as vstd::string::StringExecFns>::from_str("open-awesome"),
                        payload: String::new(),
                    },
                );
                proof {
                    reveal_strlit("config");
                    assert("config"@ =~= label_config());
                    if find_index(old(self).windows@, label_config()) == -1 {
                        assert(fx_views(fx@) =~= seq![
                            EffectView::CreateWindow {
                                label: label_config(),
                                source: config_source_view(old(self).dev_build),
                            },
                        ].push(
                            EffectView::EmitAll {
                                event: "open-awesome"@,
                                payload: Seq::<char>::empty(),
                            },
                        ));
                    } else {
                        assert(fx_views(fx@) =~= seq![
                            EffectView::ShowFocus { label: label_config() },
                        ].push(
                            EffectView::EmitAll {
                                event: "open-awesome"@,
                                payload: Seq::<char>::empty(),
                            },
                        ));
                    }
                }
            },
            CommandId::PrefAbout => {
                fx.push(
                    Effect::EmitAll {
                        event: <String as vstd::string::StringExecFns>::from_str("open-about"),
                        payload: String::new(),
                    },
                );
                proof {
                    assert(fx_views(fx@) =~= seq![
                        EffectView::EmitAll {
                            event: "open-about"@,
                            payload: Seq::<char>::empty(),
                        },
                    ]);
                }
            },
            CommandId::ToggleDarkmode => {
                let cur = match self.windows.get(core_label()) {
                    Some(w) => w.theme,
                    None => Theme::System,
                };
                proof {
                    assert(cur == spec_core_theme(old(self).windows@));
                }
                let next = cur.toggled();
                self.windows.set_theme_all(next);
                fx.push(Effect::ApplyTheme { theme: next });
                fx.push(
                    Effect::EmitAll {
                        event: <String as vstd::string::StringExecFns>::from_str(
                            "menu-toggle-dark",
                        ),
                        payload: String::new(),
                    },
                );
                fx.push(Effect::PersistTheme { theme: next });
                proof {
                    assert(fx_views(fx@) =~= seq![
                        EffectView::ApplyTheme { theme: next },
                        EffectView::EmitAll {
                            event: "menu-toggle-dark"@,
                            payload: Seq::<char>::empty(),
                        },
                        EffectView::PersistTheme { theme: next },
                    ]);
                }
            },
            CommandId::Reload => {
                fx.push(
                    Effect::Reload {
                        label: <String as vstd::string::StringExecFns>::from_str("core"),
                    },
                );
                proof {
                    reveal_strlit("core");
                    assert("core"@ =~= label_core());
                    assert(fx_views(fx@) =~= seq![EffectView::Reload { label: label_core() }]);
                }
            },
            CommandId::ToggleDevtools => {
                if self.dev_build {
                    fx.push(
                        Effect::OpenDevtools {
                            label: <String as vstd::string::StringExecFns>::from_str("core"),
                        },
                    );
                    proof {
                        reveal_strlit("core");
                        assert("core"@ =~= label_core());
                        assert(fx_views(fx@) =~= seq![
                            EffectView::OpenDevtools { label: label_core() },
                        ]);
                    }
                } else {
                    proof {
                        assert(fx_views(fx@) =~= Seq::<EffectView>::empty());
                    }
                }
            },
            CommandId::ViewBack => {
                fx.push(
                    Effect::HistoryBack {
                        label: <String as vstd::string::StringExecFns>::from_str("core"),
                    },
                );
                proof {
                    reveal_strlit("core");
                    assert("core"@ =~= label_core());
                    assert(fx_views(fx@) =~= seq![
                        EffectView::HistoryBack { label: label_core() },
                    ]);
                }
            },
            CommandId::ViewForward => {
                fx.push(
                    Effect::HistoryForward {
                        label: <String as vstd::string::StringExecFns>::from_str("core"),
                    },
                );
                proof {
                    reveal_strlit("core");
                    assert("core"@ =~= label_core());
                    assert(fx_views(fx@) =~= seq![
                        EffectView::HistoryForward { label: label_core() },
                    ]);
                }
            },
            CommandId::ToggleStayOnTop => {
                match self.windows.toggle_on_top(core_label()) {
                    Some(v) => {
                        fx.push(
                            Effect::SetAlwaysOnTop {
                                label: <String as vstd::string::StringExecFns>::from_str("core"),
                                value: v,
                            },
                        );
                        proof {
                            reveal_strlit("core");
                            assert("core"@ =~= label_core());
                            assert(fx_views(fx@) =~= seq![
                                EffectView::SetAlwaysOnTop { label: label_core(), value: v },
                            ]);
                        }
                    },
                    None => {
                        proof {
                            assert(fx_views(fx@) =~= Seq::<EffectView>::empty());
                        }
                    },
                }
            },
            CommandId::HelpLog => {
                fx.push(
                    Effect::EmitAll {
                        event: <String as vstd::string::StringExecFns>::from_str(
                            "open-chatgpt-log",
                        ),
                        payload: String::new(),
                    },
                );
                proof {
                    assert(fx_views(fx@) =~= seq![
                        EffectView::EmitAll {
                            event: "open-chatgpt-log"@,
                            payload: Seq::<char>::empty(),
                        },
                    ]);
                }
            },
            CommandId::HelpUpdateLog => {
                fx.push(
                    Effect::EmitAll {
                        event: <String as vstd::string::StringExecFns>::from_str(
                            "open-update-log",
                        ),
                        payload: String::new(),
                    },
                );
                proof {
                    assert(fx_views(fx@) =~= seq![
                        EffectView::EmitAll {
                            event: "open-update-log"@,
                            payload: Seq::<char>::empty(),
                        },
                    ]);
                }
            },
            CommandId::HelpReportBug => {
                fx.push(
                    Effect::OpenExternal {
                        url: <String as vstd::string::StringExecFns>::from_str(
                            "https://github.com/SpellboundScents/ChatGPT/issues/new",
                        ),
                    },
                );
                proof {
                    assert(fx_views(fx@) =~= seq![
                        EffectView::OpenExternal { url: bug_report_url() },
                    ]);
                }
            },
        }
        fx
    }

    /// Dispatch by string identifier: a known identifier behaves as its
    /// command, an unknown one is silently ignored.
    pub fn dispatch_id(&mut self, id: &str) -> (fx: Vec<Effect>)
        requires
            old(self).wf(),
        ensures
            final(self).wf(),
            final(self).dev_build == old(self).dev_build,
            final(self).windows.preserves_core() == old(self).windows.preserves_core(),
            match spec_parse_command(id@) {
                Some(c) => dispatch_rel(
                    c,
                    old(self).windows@,
                    old(self).update@,
                    old(self).dev_build,
                    final(self).windows@,
                    final(self).update@,
                    fx_views(fx@),
                ),
                None => *final(self) == *old(self) && fx@.len() == 0,
            },
    {
        match parse_command(id) {
            Some(c) => self.dispatch(c),
            None => Vec::new(),
        }
    }
}

} // verus!
