//! Assembling and running the application host: plugin registration, the
//! startup hook, and the transition into the running event loop.

use vstd::prelude::*;
use vstd::string::StringExecFns;

use crate::registry::WindowRegistry;
use crate::registry::unique_labels;
use crate::window::Window;

verus! {

/// The two states of the bootstrapper: assembling the host, and running
/// its event loop. There is no way back from `Running`.
#[derive(Clone, Copy, PartialEq, Eq, Structural, Debug)]
pub enum Phase {
    Initializing,
    Running,
}

/// The observable steps of the startup sequence, in the order they happened.
#[derive(Clone, Copy, PartialEq, Eq, Structural, Debug)]
pub enum BootEvent {
    PluginRegistered,
    HookInvoked,
}

/// The error a startup hook could report. This bootstrapper's hook never
/// produces one: it swallows every failure it meets.
#[derive(Clone, Copy, PartialEq, Eq, Structural, Debug)]
pub struct SetupError;

/// The host's run loop failed to start: the one fatal failure of the
/// system.
#[derive(Clone, Copy, PartialEq, Eq, Structural, Debug)]
pub struct FatalError;

/// How the startup hook leaves the registry's windows: a focus request is
/// recorded on the window labeled "main", every other window is untouched.
pub open spec fn hook_effect(ws: Seq<Window>) -> Seq<Window> {
    ws.map_values(|w: Window| w.after_hook())
}

/// The application bootstrapper: it assembles the host, registers the
/// opener capability plugin, installs the startup hook, and starts the run
/// loop.
pub struct Bootstrapper {
    pub phase: Phase,
    pub plugin_registered: bool,
    /// The startup steps taken so far, oldest first.
    pub events: Vec<BootEvent>,
}

impl Bootstrapper {
    /// A bootstrapper over the host's default configuration: nothing
    /// registered, nothing run.
    pub fn initialize() -> (b: Bootstrapper)
        ensures
            b.phase == Phase::Initializing,
            !b.plugin_registered,
            b.events@ == Seq::<BootEvent>::empty(),
    {
        Bootstrapper { phase: Phase::Initializing, plugin_registered: false, events: Vec::new() }
    }

    /// Attaches the externally supplied opener capability plugin to the
    /// host under assembly.
    pub fn register_plugin(&mut self)
        requires
            old(self).phase == Phase::Initializing,
        ensures
            final(self).phase == Phase::Initializing,
            final(self).plugin_registered,
            final(self).events@ == old(self).events@.push(BootEvent::PluginRegistered),
    {
        self.plugin_registered = true;
        self.events.push(BootEvent::PluginRegistered);
    }

    /// The startup hook, run once by the host after it has created its
    /// windows and before the event loop accepts events: resolve the window
    /// labeled "main"; if it exists, ask the host to focus it and discard
    /// the answer; report success whatever happened.
    pub fn on_startup(&mut self, registry: &mut WindowRegistry) -> (r: Result<(), SetupError>)
        requires
            old(self).phase == Phase::Initializing,
            old(registry).wf(),
        ensures
            r is Ok,
            final(registry).windows@ == hook_effect(old(registry).windows@),
            final(registry).wf(),
            final(self).phase == Phase::Initializing,
            final(self).plugin_registered == old(self).plugin_registered,
            final(self).events@ == old(self).events@.push(BootEvent::HookInvoked),
    {
        self.events.push(BootEvent::HookInvoked);
        let main_label: String = String::from_str("main");
        let found = registry.lookup(&main_label);
        match found {
            Some(i) => {
                let _granted = registry.request_focus(i);
                proof {
                    lemma_focus_at_main_is_hook_effect(old(registry).windows@, i as int);
                }
            },
            None => {
                proof {
                    lemma_hook_effect_without_main(old(registry).windows@);
                }
            },
        }
        proof {
            lemma_hook_effect_keeps_labels(old(registry).windows@);
        }
        Ok(())
    }

    /// The host's event loop begins: the bootstrapper is running and stays
    /// so until the process exits.
    pub fn begin_event_loop(&mut self)
        requires
            old(self).phase == Phase::Initializing,
        ensures
            final(self).phase == Phase::Running,
            final(self).plugin_registered == old(self).plugin_registered,
            final(self).events@ == old(self).events@,
    {
        self.phase = Phase::Running;
    }
}

/// Updating the main window with a recorded focus request is exactly the
/// hook's effect on the whole registry, labels being unique.
proof fn lemma_focus_at_main_is_hook_effect(ws: Seq<Window>, m: int)
    requires
        unique_labels(ws),
        0 <= m < ws.len(),
        ws[m].is_main(),
    ensures
        ws.update(
            m,
            Window { label: ws[m].label, focus_requested: true, grants_focus: ws[m].grants_focus },
        ) == hook_effect(ws),
{
    let updated = ws.update(
        m,
        Window { label: ws[m].label, focus_requested: true, grants_focus: ws[m].grants_focus },
    );
    assert forall|i: int| 0 <= i < ws.len() implies updated[i] == hook_effect(ws)[i] by {
        if i == m {
            assert(ws[m].after_hook() == updated[m]);
        } else {
            assert(ws[i].label@ != ws[m].label@);
            assert(!ws[i].is_main());
            assert(ws[i].after_hook() == ws[i]);
        }
    }
    assert(updated =~= hook_effect(ws));
}

/// Law: when a window labeled "main" is registered and no focus request
/// has been issued yet, the startup hook issues exactly one focus request,
/// to that window, whether or not the host grants it.
pub proof fn lemma_hook_focuses_main_exactly_once(ws: Seq<Window>, m: int)
    requires
        unique_labels(ws),
        forall|i: int| 0 <= i < ws.len() ==> !(#[trigger] ws[i]).focus_requested,
        0 <= m < ws.len(),
        ws[m].is_main(),
    ensures
        hook_effect(ws)[m].focus_requested,
        forall|i: int|
            0 <= i < ws.len() && i != m ==> !(#[trigger] hook_effect(ws)[i]).focus_requested,
{
    assert forall|i: int|
        0 <= i < ws.len() && i != m implies !(#[trigger] hook_effect(ws)[i]).focus_requested by {
        assert(ws[i].label@ != ws[m].label@);
        assert(hook_effect(ws)[i] == ws[i].after_hook());
    }
}

/// Law: when no window labeled "main" is registered, the startup hook
/// issues no focus request at all: the registry is left exactly as it was.
pub proof fn lemma_hook_effect_without_main(ws: Seq<Window>)
    requires
        forall|i: int| 0 <= i < ws.len() ==> !(#[trigger] ws[i]).is_main(),
    ensures
        hook_effect(ws) == ws,
{
    assert forall|i: int| 0 <= i < ws.len() implies hook_effect(ws)[i] == ws[i] by {
        assert(ws[i].after_hook() == ws[i]);
    }
    assert(hook_effect(ws) =~= ws);
}

/// The hook touches no label, so uniqueness of labels survives it.
proof fn lemma_hook_effect_keeps_labels(ws: Seq<Window>)
    requires
        unique_labels(ws),
    ensures
        unique_labels(hook_effect(ws)),
{
    let post = hook_effect(ws);
    assert forall|i: int, j: int|
        0 <= i < post.len() && 0 <= j < post.len() && i != j implies post[i].label@
        != post[j].label@ by {
        assert(post[i] == ws[i].after_hook());
        assert(post[j] == ws[j].after_hook());
    }
}

/// Assembles and runs the application: a bootstrapper is built over the
/// default configuration, the opener plugin is registered, the startup hook
/// runs over the windows the host created, and the event loop begins.
/// `host_ok` is the one outside fact: whether the platform host managed to
/// start. Its failure is the only fatal path; the hook's own failures are
/// swallowed before they reach this level.
pub fn run(registry: &mut WindowRegistry, host_ok: bool) -> (r: Result<Bootstrapper, FatalError>)
    requires
        old(registry).wf(),
    ensures
        final(registry).wf(),
        r is Ok <==> host_ok,
        host_ok ==> final(registry).windows@ == hook_effect(old(registry).windows@),
        !host_ok ==> *final(registry) == *old(registry),
        r matches Ok(b) ==> {
            &&& b.phase == Phase::Running
            &&& b.plugin_registered
            &&& b.events@ == seq![BootEvent::PluginRegistered, BootEvent::HookInvoked]
        },
{
    let mut boot = Bootstrapper::initialize();
    boot.register_plugin();
    if !host_ok {
        // The host could not start its windowing or run loop: abort.
        return Err(FatalError);
    }
    // The host has created its windows; the hook runs once, before the
    // event loop accepts anything.
    let hook_result = boot.on_startup(registry);
    match hook_result {
        Ok(()) => {},
        Err(_) => {
            // The host treats a failing startup hook as fatal; this hook
            // never fails.
            return Err(FatalError);
        },
    }
    boot.begin_event_loop();
    proof {
        assert(boot.events@ =~= seq![BootEvent::PluginRegistered, BootEvent::HookInvoked]);
    }
    Ok(boot)
}

} // verus!
