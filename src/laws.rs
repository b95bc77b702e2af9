//! Properties that relate several parts of the library.

use vstd::prelude::*;
use crate::config::Config;
use crate::install::{is_selection, registered, Event, Outcome, Phase, Reconciler};
use crate::source::plugin_source;
use crate::text::{is_prefix, occurs_in};

verus! {

/// Every source declaration resolves, and always to a URL that begins with
/// `http`.
pub proof fn lemma_source_is_url(name: Seq<char>, source: Seq<char>)
    ensures
        is_prefix("http"@, plugin_source(name, source)),
{
    reveal_strlit("http");
    reveal_strlit("https://github.com/asdf-vm/asdf-");
    reveal_strlit("https://github.com/hyperpolymath/asdf-");
    let r = plugin_source(name, source);
    if !is_prefix("http"@, source) || source == "official"@ || source == "hyperpolymath"@ {
        assert(r.subrange(0, 4) =~= "http"@);
    }
}

/// Filtering by a declared name selects exactly that plugin; filtering by a
/// name that is not declared selects nothing.
pub proof fn lemma_filter_selects_named(c: &Config, name: &str, sel: Seq<usize>)
    requires
        c.wf(),
        is_selection(c, Some(name), sel),
    ensures
        c.declares(name@) ==> sel.len() == 1 && c.plugins@[sel[0] as int].name@ == name@
            && forall|k: int| c.declared_at(name@, k) ==> k == sel[0],
        !c.declares(name@) ==> sel.len() == 0,
{
}

/// A registration that fails only because the plugin is there already goes
/// on to installation, with nothing recorded against the plugin.
pub proof fn lemma_already_added_goes_on(d: &Reconciler, ev: Event)
    requires
        d.wf(),
        !d.finished(),
        d.phase == Phase::Register,
        occurs_in("already added"@, ev.stderr@),
    ensures
        d.next(ev) == (d.current, Phase::Install, None::<Outcome>),
{
}

/// Any other failed registration ends the work on that plugin as failed,
/// and the driver moves to the next plugin.
pub proof fn lemma_failed_registration_moves_on(d: &Reconciler, ev: Event)
    requires
        d.wf(),
        !d.finished(),
        d.phase == Phase::Register,
        !ev.success,
        !occurs_in("already added"@, ev.stderr@),
    ensures
        !registered(ev),
        d.next(ev) == ((d.current + 1) as usize, Phase::Register, Some(Outcome::AddFailed)),
{
}

} // verus!
