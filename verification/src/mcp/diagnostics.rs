//! Compile diagnostics of the Unity project: filtering and summaries.
use vstd::prelude::*;

use crate::text::{concat2, str_eq};

verus! {

/// A request for compile diagnostics.
#[derive(Debug, Clone)]
pub struct UnityGetCompileDiagnosticsRequest {
    pub max_items: u32,
    /// "error", "warning", "info" or "all".
    pub severity: String,
    pub changed_only: bool,
    pub assembly: Option<String>,
}

/// The default number of diagnostics returned: 500.
pub fn default_max_items() -> (r: u32)
    ensures
        r == 500,
{
    500
}

/// The default severity: all of them.
pub fn default_severity() -> (r: String)
    ensures
        r@ == "all"@,
{
    String::from_str("all")
}

/// A position in a file.
#[derive(Debug, Clone, Copy)]
pub struct DiagnosticPosition {
    pub line: u32,
    pub character: u32,
}

/// A range in a file.
#[derive(Debug, Clone, Copy)]
pub struct DiagnosticRange {
    pub start: DiagnosticPosition,
    pub end: DiagnosticPosition,
}

/// One diagnostic of the compiler.
#[derive(Debug, Clone)]
pub struct Diagnostic {
    pub file_uri: String,
    pub range: DiagnosticRange,
    pub severity: String,
    pub message: String,
    pub code: Option<String>,
    pub assembly: String,
    pub source: String,
    pub fingerprint: String,
    pub first_seen: Option<String>,
    pub last_seen: Option<String>,
}

/// Counts by severity, and the assemblies concerned.
#[derive(Debug, Clone)]
pub struct DiagnosticSummary {
    pub errors: u32,
    pub warnings: u32,
    pub infos: u32,
    pub assemblies: Vec<String>,
}

/// The diagnostics of a compilation, as the bridge writes them.
#[derive(Debug, Clone)]
pub struct CompileDiagnostics {
    pub compile_id: String,
    pub summary: DiagnosticSummary,
    pub diagnostics: Vec<Diagnostic>,
    pub truncated: bool,
}

/// The answer to a request for diagnostics.
#[derive(Debug, Clone)]
pub struct UnityGetCompileDiagnosticsResponse {
    pub compile_id: String,
    pub summary: DiagnosticSummary,
    pub diagnostics: Vec<Diagnostic>,
    pub truncated: bool,
}

fn copy_opt(s: &Option<String>) -> (r: Option<String>)
    ensures
        r == *s,
{
    match s {
        Some(t) => Some(t.clone()),
        None => None,
    }
}

/// A copy of a diagnostic.
pub fn copy_diagnostic(d: &Diagnostic) -> (r: Diagnostic)
    ensures
        r == *d,
{
    Diagnostic {
        file_uri: d.file_uri.clone(),
        range: d.range,
        severity: d.severity.clone(),
        message: d.message.clone(),
        code: copy_opt(&d.code),
        assembly: d.assembly.clone(),
        source: d.source.clone(),
        fingerprint: d.fingerprint.clone(),
        first_seen: copy_opt(&d.first_seen),
        last_seen: copy_opt(&d.last_seen),
    }
}

/// Whether a diagnostic passes the filters: of the severity asked for
/// (any, for "all"), and of the assembly asked for, if one is.
pub open spec fn passes(d: Diagnostic, severity: Seq<char>, assembly: Option<String>) -> bool {
    &&& (severity == "all"@ || d.severity@ == severity)
    &&& match assembly {
        Some(a) => d.assembly@ == a@,
        None => true,
    }
}

/// The diagnostics that pass the filters, in order.
pub open spec fn matching(ds: Seq<Diagnostic>, severity: Seq<char>, assembly: Option<String>) -> Seq<Diagnostic>
    decreases ds.len(),
{
    if ds.len() == 0 {
        Seq::empty()
    } else {
        let rest = matching(ds.drop_last(), severity, assembly);
        if passes(ds.last(), severity, assembly) { rest.push(ds.last()) } else { rest }
    }
}

/// `s` cut to at most `n` items.
pub open spec fn first_n<A>(s: Seq<A>, n: nat) -> Seq<A> {
    if s.len() <= n { s } else { s.take(n as int) }
}

/// The diagnostics that pass the filters, in order, at most `max_items`.
pub fn filter_diagnostics(diagnostics: &Vec<Diagnostic>, severity: &str, assembly: &Option<String>, max_items: u32) -> (r: Vec<Diagnostic>)
    ensures
        r@ == first_n(matching(diagnostics@, severity@, *assembly), max_items as nat),
        r@.len() <= max_items,
        forall|i: int| 0 <= i < r@.len() ==> diagnostics@.contains(#[trigger] r@[i])
            && (severity@ == "all"@ || r@[i].severity@ == severity@)
            && (*assembly matches Some(a) ==> r@[i].assembly@ == a@),
{
    let mut r: Vec<Diagnostic> = Vec::new();
    let all = str_eq(severity, "all");
    proof {
        reveal_strlit("all");
    }
    let mut i: usize = 0;
    while i < diagnostics.len()
        invariant
            i <= diagnostics@.len(),
            all == (severity@ == "all"@),
            r@ == matching(diagnostics@.take(i as int), severity@, *assembly),
        decreases diagnostics.len() - i,
    {
        assert(diagnostics@.take(i + 1).drop_last() == diagnostics@.take(i as int));
        assert(diagnostics@.take(i + 1).last() == diagnostics@[i as int]);
        let d = &diagnostics[i];
        let sev_ok = all || str_eq(d.severity.as_str(), severity);
        let asm_ok = match assembly {
            Some(a) => str_eq(d.assembly.as_str(), a.as_str()),
            None => true,
        };
        if sev_ok && asm_ok {
            r.push(copy_diagnostic(d));
        }
        i = i + 1;
    }
    assert(diagnostics@.take(diagnostics@.len() as int) == diagnostics@);
    if r.len() > max_items as usize {
        r.truncate(max_items as usize);
    }
    proof {
        law_filters_apply_together(diagnostics@, severity@, *assembly, max_items as nat);
    }
    r
}

/// How many diagnostics have the severity `sev`.
pub open spec fn count_severity(ds: Seq<Diagnostic>, sev: Seq<char>) -> nat
    decreases ds.len(),
{
    if ds.len() == 0 {
        0
    } else {
        count_severity(ds.drop_last(), sev) + if ds.last().severity@ == sev { 1nat } else { 0nat }
    }
}

/// The assemblies of the diagnostics, each once, in order of first
/// appearance.
pub open spec fn distinct_assemblies(ds: Seq<Diagnostic>) -> Seq<Seq<char>>
    decreases ds.len(),
{
    if ds.len() == 0 {
        Seq::empty()
    } else {
        let rest = distinct_assemblies(ds.drop_last());
        if rest.contains(ds.last().assembly@) { rest } else { rest.push(ds.last().assembly@) }
    }
}

proof fn lemma_count_bound(ds: Seq<Diagnostic>, sev: Seq<char>)
    ensures
        count_severity(ds, sev) <= ds.len(),
    decreases ds.len(),
{
    if ds.len() > 0 {
        lemma_count_bound(ds.drop_last(), sev);
    }
}

proof fn lemma_distinct_assemblies(ds: Seq<Diagnostic>)
    ensures
        distinct_assemblies(ds).no_duplicates(),
        forall|a: Seq<char>| distinct_assemblies(ds).contains(a) <==> exists|i: int| 0 <= i < ds.len() && (#[trigger] ds[i]).assembly@ == a,
    decreases ds.len(),
{
    if ds.len() > 0 {
        let d = ds.drop_last();
        lemma_distinct_assemblies(d);
        let rest = distinct_assemblies(d);
        let x = ds.last().assembly@;
        if rest.contains(x) {
            assert(distinct_assemblies(ds) == rest);
        } else {
            assert(distinct_assemblies(ds) == rest.push(x));
            assert forall|p: int, q: int| 0 <= p < q < rest.push(x).len() implies rest.push(x)[p] != rest.push(x)[q] by {
                if q == rest.len() {
                    assert(rest.push(x)[p] == rest[p]);
                    assert(rest.contains(rest[p]));
                }
            }
        }
        assert forall|a: Seq<char>| distinct_assemblies(ds).contains(a) implies exists|i: int| 0 <= i < ds.len() && (#[trigger] ds[i]).assembly@ == a by {
            if rest.contains(a) {
                let i = choose|i: int| 0 <= i < d.len() && (#[trigger] d[i]).assembly@ == a;
                assert(ds[i] == d[i]);
            } else {
                let k = choose|k: int| 0 <= k < distinct_assemblies(ds).len() && distinct_assemblies(ds)[k] == a;
                assert(a == x);
                assert(ds[ds.len() - 1].assembly@ == a);
            }
        }
        assert forall|a: Seq<char>| (exists|i: int| 0 <= i < ds.len() && (#[trigger] ds[i]).assembly@ == a) implies distinct_assemblies(ds).contains(a) by {
            let i = choose|i: int| 0 <= i < ds.len() && (#[trigger] ds[i]).assembly@ == a;
            if i < ds.len() - 1 {
                assert(d[i] == ds[i]);
                assert(rest.contains(a));
                if !rest.contains(x) {
                    let k = choose|k: int| 0 <= k < rest.len() && rest[k] == a;
                    assert(rest.push(x)[k] == a);
                }
            } else {
                if !rest.contains(x) {
                    assert(rest.push(x)[rest.len() as int] == x);
                }
            }
        }
    }
}

/// The summary of `diagnostics`: how many are errors, warnings and infos,
/// and their assemblies, each once in order of first appearance.
pub fn calculate_summary(diagnostics: &Vec<Diagnostic>) -> (r: DiagnosticSummary)
    requires
        diagnostics@.len() <= u32::MAX,
    ensures
        r.errors == count_severity(diagnostics@, "error"@),
        r.warnings == count_severity(diagnostics@, "warning"@),
        r.infos == count_severity(diagnostics@, "info"@),
        r.assemblies@.map_values(|s: String| s@) == distinct_assemblies(diagnostics@),
        distinct_assemblies(diagnostics@).no_duplicates(),
{
    let mut errors: u32 = 0;
    let mut warnings: u32 = 0;
    let mut infos: u32 = 0;
    let mut assemblies: Vec<String> = Vec::new();
    proof {
        reveal_strlit("error");
        reveal_strlit("warning");
        reveal_strlit("info");
        assert("error"@.len() == 5 && "warning"@.len() == 7 && "info"@.len() == 4);
        assert("error"@ != "warning"@ && "error"@ != "info"@ && "warning"@ != "info"@);
    }
    let mut i: usize = 0;
    while i < diagnostics.len()
        invariant
            i <= diagnostics@.len(),
            diagnostics@.len() <= u32::MAX,
            "error"@ != "warning"@ && "error"@ != "info"@ && "warning"@ != "info"@,
            errors == count_severity(diagnostics@.take(i as int), "error"@),
            warnings == count_severity(diagnostics@.take(i as int), "warning"@),
            infos == count_severity(diagnostics@.take(i as int), "info"@),
            assemblies@.map_values(|s: String| s@) == distinct_assemblies(diagnostics@.take(i as int)),
        decreases diagnostics.len() - i,
    {
        let ghost pre = diagnostics@.take(i as int);
        assert(diagnostics@.take(i + 1).drop_last() == pre);
        assert(diagnostics@.take(i + 1).last() == diagnostics@[i as int]);
        proof {
            lemma_count_bound(pre, "error"@);
            lemma_count_bound(pre, "warning"@);
            lemma_count_bound(pre, "info"@);
        }
        let d = &diagnostics[i];
        let mut seen = false;
        let mut j: usize = 0;
        while j < assemblies.len()
            invariant
                j <= assemblies@.len(),
                seen == exists|k: int| 0 <= k < j && (#[trigger] assemblies@[k])@ == d.assembly@,
            decreases assemblies.len() - j,
        {
            if str_eq(assemblies[j].as_str(), d.assembly.as_str()) {
                seen = true;
            }
            j = j + 1;
        }
        proof {
            let m = assemblies@.map_values(|s: String| s@);
            if seen {
                let k = choose|k: int| 0 <= k < assemblies@.len() && (#[trigger] assemblies@[k])@ == d.assembly@;
                assert(m[k] == d.assembly@);
            } else {
                assert forall|k: int| 0 <= k < m.len() implies m[k] != d.assembly@ by {
                    assert(m[k] == assemblies@[k]@);
                }
            }
        }
        if !seen {
            let ghost before = assemblies@;
            assemblies.push(d.assembly.clone());
            assert(assemblies@.map_values(|s: String| s@) =~= before.map_values(|s: String| s@).push(d.assembly@));
        }
        if str_eq(d.severity.as_str(), "error") {
            errors = errors + 1;
        } else if str_eq(d.severity.as_str(), "warning") {
            warnings = warnings + 1;
        } else if str_eq(d.severity.as_str(), "info") {
            infos = infos + 1;
        }
        i = i + 1;
    }
    assert(diagnostics@.take(diagnostics@.len() as int) == diagnostics@);
    proof {
        lemma_distinct_assemblies(diagnostics@);
    }
    DiagnosticSummary { errors, warnings, infos, assemblies }
}

/// The answer to a request: the diagnostics that pass the filters, at most
/// `max_items`, with their own summary; truncated when fewer come back than
/// were read, or the file was truncated already.
pub fn diagnostics_response(diags: CompileDiagnostics, max_items: u32, severity: &str, assembly: &Option<String>) -> (r: UnityGetCompileDiagnosticsResponse)
    ensures
        r.compile_id == diags.compile_id,
        r.diagnostics@ == first_n(matching(diags.diagnostics@, severity@, *assembly), max_items as nat),
        r.truncated == (diags.truncated || r.diagnostics@.len() < diags.diagnostics@.len()),
        r.summary.errors == count_severity(r.diagnostics@, "error"@),
        r.summary.warnings == count_severity(r.diagnostics@, "warning"@),
        r.summary.infos == count_severity(r.diagnostics@, "info"@),
        r.summary.assemblies@.map_values(|s: String| s@) == distinct_assemblies(r.diagnostics@),
{
    let total_before = diags.diagnostics.len();
    let filtered = filter_diagnostics(&diags.diagnostics, severity, assembly, max_items);
    let truncated = diags.truncated || filtered.len() < total_before;
    let summary = calculate_summary(&filtered);
    UnityGetCompileDiagnosticsResponse { compile_id: diags.compile_id, summary, diagnostics: filtered, truncated }
}

/// The text answered when no diagnostics can be read.
pub fn diagnostics_unavailable_text(error: &str) -> (r: String)
    ensures
        r@ == "Unity compile diagnostics not available. Please trigger a compilation in Unity Editor first.\n\nError: "@ + error@,
{
    concat2("Unity compile diagnostics not available. Please trigger a compilation in Unity Editor first.\n\nError: ", error)
}

/// Where the diagnostics file is.
#[derive(Debug, Clone)]
pub enum DiagnosticsLocation {
    /// At this absolute path.
    Absolute(String),
    /// At these components under the project root.
    UnderProject(Vec<String>),
}

/// Where to read the diagnostics: the configured path, as it is when
/// absolute and under the project root when relative; else
/// `Temp/AI/latest.json` under the project root.
pub fn diagnostics_location(configured: Option<String>, configured_is_absolute: bool) -> (r: DiagnosticsLocation)
    ensures
        match configured {
            Some(p) => if configured_is_absolute {
                r matches DiagnosticsLocation::Absolute(q) && q == p
            } else {
                r matches DiagnosticsLocation::UnderProject(parts) && parts@.len() == 1 && parts@[0] == p
            },
            None => r matches DiagnosticsLocation::UnderProject(parts) && parts@.len() == 3
                && parts@[0]@ == "Temp"@ && parts@[1]@ == "AI"@ && parts@[2]@ == "latest.json"@,
        },
{
    match configured {
        Some(p) => if configured_is_absolute {
            DiagnosticsLocation::Absolute(p)
        } else {
            let mut parts: Vec<String> = Vec::new();
            parts.push(p);
            DiagnosticsLocation::UnderProject(parts)
        },
        None => {
            let mut parts: Vec<String> = Vec::new();
            parts.push(String::from_str("Temp"));
            parts.push(String::from_str("AI"));
            parts.push(String::from_str("latest.json"));
            DiagnosticsLocation::UnderProject(parts)
        },
    }
}

/// What each filter asks of a diagnostic, on its own terms: the severity
/// asked for unless that is "all", and the assembly asked for if one is.
proof fn lemma_matching_members(ds: Seq<Diagnostic>, severity: Seq<char>, assembly: Option<String>)
    ensures
        matching(ds, severity, assembly).len() <= ds.len(),
        forall|d: Diagnostic| #[trigger] matching(ds, severity, assembly).contains(d) <==> (ds.contains(d)
            && (severity == "all"@ || d.severity@ == severity)
            && (assembly matches Some(a) ==> d.assembly@ == a@)),
    decreases ds.len(),
{
    if ds.len() > 0 {
        let front = ds.drop_last();
        lemma_matching_members(front, severity, assembly);
        let rest = matching(front, severity, assembly);
        assert forall|d: Diagnostic| #[trigger] matching(ds, severity, assembly).contains(d) <==> (ds.contains(d)
            && (severity == "all"@ || d.severity@ == severity)
            && (assembly matches Some(a) ==> d.assembly@ == a@)) by {
            if ds.contains(d) {
                let j = choose|j: int| 0 <= j < ds.len() && ds[j] == d;
                if j < ds.len() - 1 {
                    assert(front[j] == d);
                    assert(front.contains(d));
                }
            }
            if front.contains(d) {
                let j = choose|j: int| 0 <= j < front.len() && front[j] == d;
                assert(ds[j] == d);
            }
            if passes(ds.last(), severity, assembly) {
                assert(rest.push(ds.last())[rest.len() as int] == ds.last());
                if rest.contains(d) {
                    let j = choose|j: int| 0 <= j < rest.len() && rest[j] == d;
                    assert(rest.push(ds.last())[j] == d);
                }
                if rest.push(ds.last()).contains(d) {
                    let j = choose|j: int| 0 <= j < rest.len() + 1 && rest.push(ds.last())[j] == d;
                    if j < rest.len() {
                        assert(rest[j] == d);
                    }
                }
            }
            assert(ds[ds.len() - 1] == ds.last());
        }
    }
}

/// The severity and assembly filters apply together: every diagnostic
/// returned is one of those given, of the severity asked for (any, for
/// "all") and of the assembly asked for (when one is); and when no more
/// than `max_items` pass, every diagnostic given that meets both is
/// returned.
pub proof fn law_filters_apply_together(ds: Seq<Diagnostic>, severity: Seq<char>, assembly: Option<String>, max_items: nat)
    ensures
        ({
            let out = first_n(matching(ds, severity, assembly), max_items);
            &&& out.len() <= max_items
            &&& forall|i: int| 0 <= i < out.len() ==> ds.contains(#[trigger] out[i])
                && (severity == "all"@ || out[i].severity@ == severity)
                && (assembly matches Some(a) ==> out[i].assembly@ == a@)
            &&& matching(ds, severity, assembly).len() <= max_items ==> forall|d: Diagnostic| #![trigger out.contains(d)]
                ds.contains(d) && (severity == "all"@ || d.severity@ == severity)
                && (assembly matches Some(a) ==> d.assembly@ == a@) ==> out.contains(d)
        }),
{
    lemma_matching_members(ds, severity, assembly);
    let m = matching(ds, severity, assembly);
    let out = first_n(m, max_items);
    assert forall|i: int| 0 <= i < out.len() implies ds.contains(#[trigger] out[i])
        && (severity == "all"@ || out[i].severity@ == severity)
        && (assembly matches Some(a) ==> out[i].assembly@ == a@) by {
        assert(out[i] == m[i]);
        assert(m.contains(m[i]));
    }
}

} // verus!
