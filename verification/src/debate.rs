//! Persona debates: several personas with fixed priorities critique a
//! proposed change, and their findings are merged into one recommendation.

use crate::text::{chars_of, copy_str, has_prefix, lines, lines_of, push_all, push_str, replace,
    replaced, rows, same_text, slice_of, starts_with, string_of, texts, to_uppercase, trim,
    trimmed, uppercase};
use vstd::prelude::*;

verus! {

pub const SECURITY_PROMPT: &'static str =
    "You are a Security Auditor reviewing code changes.\nYour primary concerns are:\n1. Potential vulnerabilities (injection, XSS, CSRF, etc.)\n2. Authentication and authorization weaknesses\n3. Data exposure risks\n4. Cryptographic misuse\n5. Input validation gaps\n\nCritique the proposed changes from a security perspective. Be thorough but constructive.\nPropose specific mitigations for any issues found.";

pub const PERFORMANCE_PROMPT: &'static str =
    "You are a Performance Optimizer reviewing code changes.\nYour primary concerns are:\n1. Algorithm efficiency (time/space complexity)\n2. Memory allocation patterns\n3. I/O bottlenecks and async opportunities\n4. Cache-friendly data structures\n5. Resource lifecycle management\n\nCritique the proposed changes from a performance perspective. Suggest optimizations\nwhile maintaining code clarity.";

pub const ARCHITECTURE_PROMPT: &'static str =
    "You are an Architecture Purist reviewing code changes.\nYour primary concerns are:\n1. SOLID principles adherence\n2. Clean separation of concerns\n3. Proper abstraction levels\n4. Dependency management\n5. Long-term maintainability\n\nCritique the proposed changes from an architectural perspective. Suggest patterns\nthat improve the design without over-engineering.";

pub const UX_PROMPT: &'static str =
    "You are a UX Advocate reviewing code changes.\nYour primary concerns are:\n1. Clear, actionable error messages\n2. Intuitive API design\n3. Comprehensive documentation\n4. Sensible default behaviors\n5. Graceful handling of edge cases\n\nCritique the proposed changes from a user experience perspective. Consider both\ndevelopers using this code and end-users affected by it.";

/// A persona that takes part in a debate.
#[derive(Debug, Clone)]
pub struct Persona {
    pub name: String,
    pub role: String,
    pub priorities: Vec<String>,
    pub system_prompt: String,
}

/// The mathematical value of a [`Persona`].
pub struct PersonaV {
    pub name: Seq<char>,
    pub role: Seq<char>,
    pub priorities: Seq<Seq<char>>,
    pub system_prompt: Seq<char>,
}

impl View for Persona {
    type V = PersonaV;

    open spec fn view(&self) -> PersonaV {
        PersonaV {
            name: self.name@,
            role: self.role@,
            priorities: texts(self.priorities@),
            system_prompt: self.system_prompt@,
        }
    }
}

/// The value of the persona made by [`Persona::security_auditor`].
pub open spec fn security_auditor_view() -> PersonaV {
    PersonaV {
        name: "Security Auditor"@,
        role: "security"@,
        priorities: seq![
            "Input validation"@,
            "Authentication/Authorization"@,
            "Data sanitization"@,
            "Secure defaults"@,
            "Audit logging"@,
        ],
        system_prompt: SECURITY_PROMPT@,
    }
}

/// The value of the persona made by [`Persona::performance_optimizer`].
pub open spec fn performance_optimizer_view() -> PersonaV {
    PersonaV {
        name: "Performance Optimizer"@,
        role: "performance"@,
        priorities: seq![
            "Time complexity"@,
            "Memory efficiency"@,
            "Cache utilization"@,
            "Async optimization"@,
            "Resource pooling"@,
        ],
        system_prompt: PERFORMANCE_PROMPT@,
    }
}

/// The value of the persona made by [`Persona::architecture_purist`].
pub open spec fn architecture_purist_view() -> PersonaV {
    PersonaV {
        name: "Architecture Purist"@,
        role: "architecture"@,
        priorities: seq![
            "SOLID principles"@,
            "Separation of concerns"@,
            "Dependency inversion"@,
            "Interface segregation"@,
            "Testability"@,
        ],
        system_prompt: ARCHITECTURE_PROMPT@,
    }
}

/// The value of the persona made by [`Persona::ux_advocate`].
pub open spec fn ux_advocate_view() -> PersonaV {
    PersonaV {
        name: "UX Advocate"@,
        role: "ux"@,
        priorities: seq![
            "Error messages clarity"@,
            "API ergonomics"@,
            "Documentation"@,
            "Intuitive defaults"@,
            "Graceful degradation"@,
        ],
        system_prompt: UX_PROMPT@,
    }
}

fn five(a: &str, b: &str, c: &str, d: &str, e: &str) -> (out: Vec<String>)
    ensures
        texts(out@) == seq![a@, b@, c@, d@, e@],
{
    let mut out: Vec<String> = Vec::new();
    out.push(copy_str(a));
    out.push(copy_str(b));
    out.push(copy_str(c));
    out.push(copy_str(d));
    out.push(copy_str(e));
    assert(texts(out@) =~= seq![a@, b@, c@, d@, e@]);
    out
}

impl Persona {
    /// The persona who looks for vulnerabilities.
    pub fn security_auditor() -> (p: Self)
        ensures
            p@ == security_auditor_view(),
    {
        Persona {
            name: copy_str("Security Auditor"),
            role: copy_str("security"),
            priorities: five(
                "Input validation",
                "Authentication/Authorization",
                "Data sanitization",
                "Secure defaults",
                "Audit logging",
            ),
            system_prompt: copy_str(SECURITY_PROMPT),
        }
    }

    /// The persona who looks for waste of time and memory.
    pub fn performance_optimizer() -> (p: Self)
        ensures
            p@ == performance_optimizer_view(),
    {
        Persona {
            name: copy_str("Performance Optimizer"),
            role: copy_str("performance"),
            priorities: five(
                "Time complexity",
                "Memory efficiency",
                "Cache utilization",
                "Async optimization",
                "Resource pooling",
            ),
            system_prompt: copy_str(PERFORMANCE_PROMPT),
        }
    }

    /// The persona who looks at the design.
    pub fn architecture_purist() -> (p: Self)
        ensures
            p@ == architecture_purist_view(),
    {
        Persona {
            name: copy_str("Architecture Purist"),
            role: copy_str("architecture"),
            priorities: five(
                "SOLID principles",
                "Separation of concerns",
                "Dependency inversion",
                "Interface segregation",
                "Testability",
            ),
            system_prompt: copy_str(ARCHITECTURE_PROMPT),
        }
    }

    /// The persona who speaks for the people using the code.
    pub fn ux_advocate() -> (p: Self)
        ensures
            p@ == ux_advocate_view(),
    {
        Persona {
            name: copy_str("UX Advocate"),
            role: copy_str("ux"),
            priorities: five(
                "Error messages clarity",
                "API ergonomics",
                "Documentation",
                "Intuitive defaults",
                "Graceful degradation",
            ),
            system_prompt: copy_str(UX_PROMPT),
        }
    }
}

/// How grave the findings of one persona are.
#[derive(Debug, Clone, Copy, PartialEq)]
pub enum DebateSeverity {
    Critical,
    Important,
    Minor,
    Neutral,
}

/// What one persona said.
#[derive(Debug, Clone)]
pub struct DebateRound {
    pub persona: String,
    pub critique: String,
    pub suggestions: Vec<String>,
    pub severity: DebateSeverity,
}

/// The mathematical value of a [`DebateRound`].
pub struct RoundV {
    pub persona: Seq<char>,
    pub critique: Seq<char>,
    pub suggestions: Seq<Seq<char>>,
    pub severity: DebateSeverity,
}

impl View for DebateRound {
    type V = RoundV;

    open spec fn view(&self) -> RoundV {
        RoundV {
            persona: self.persona@,
            critique: self.critique@,
            suggestions: texts(self.suggestions@),
            severity: self.severity,
        }
    }
}

/// A point on which personas disagree.
#[derive(Debug, Clone)]
pub struct DebateConflict {
    pub topic: String,
    pub positions: Vec<(String, String)>,
    pub resolution: String,
}

/// One thing to do, with its rank: 1 is the most urgent.
#[derive(Debug, Clone)]
pub struct ActionItem {
    pub priority: u8,
    pub description: String,
    pub assigned_to: Option<String>,
}

/// The mathematical value of an [`ActionItem`].
pub struct ActionItemV {
    pub priority: u8,
    pub description: Seq<char>,
    pub assigned_to: Option<Seq<char>>,
}

impl View for ActionItem {
    type V = ActionItemV;

    open spec fn view(&self) -> ActionItemV {
        ActionItemV {
            priority: self.priority,
            description: self.description@,
            assigned_to: match self.assigned_to {
                Some(who) => Some(who@),
                None => None,
            },
        }
    }
}

/// The outcome of a debate.
#[derive(Debug, Clone)]
pub struct DebateSynthesis {
    pub summary: String,
    pub consensus_points: Vec<String>,
    pub conflicts: Vec<DebateConflict>,
    pub final_recommendation: String,
    pub action_items: Vec<ActionItem>,
}

/// The personas of one debate, in the order in which they joined.
pub struct Debate {
    personas: Vec<Persona>,
}

impl View for Debate {
    type V = Seq<PersonaV>;

    closed spec fn view(&self) -> Seq<PersonaV> {
        self.personas@.map_values(|p: Persona| p@)
    }
}

/// The request put to one persona about a proposed change.
pub open spec fn prompt_for(p: PersonaV, context: Seq<char>, change: Seq<char>) -> Seq<char> {
    p.system_prompt + "\n\n## Context\n"@ + context + "\n\n## Proposed Change\n"@ + change
        + "\n\n## Your Review\nProvide your critique as "@ + p.name
        + ". Format your response as:\n\nCRITIQUE:\n[Your detailed analysis]\n\nSUGGESTIONS:\n- [Specific actionable suggestion 1]\n- [Specific actionable suggestion 2]\n\nSEVERITY: [CRITICAL|IMPORTANT|MINOR|NEUTRAL]"@
}

/// The values of a list of pairs of strings.
pub open spec fn pair_views(pairs: Seq<(String, String)>) -> Seq<(Seq<char>, Seq<char>)> {
    pairs.map_values(|p: (String, String)| (p.0@, p.1@))
}

/// What has been gathered from the lines of a response read so far: the
/// section being read (0 none, 1 critique, 2 suggestions) and its findings.
pub struct Notes {
    pub section: int,
    pub critique: Seq<char>,
    pub suggestions: Seq<Seq<char>>,
    pub severity: DebateSeverity,
}

/// The severity that a word names; any other word names `Neutral`.
pub open spec fn severity_of(word: Seq<char>) -> DebateSeverity {
    if word == "CRITICAL"@ {
        DebateSeverity::Critical
    } else if word == "IMPORTANT"@ {
        DebateSeverity::Important
    } else if word == "MINOR"@ {
        DebateSeverity::Minor
    } else {
        DebateSeverity::Neutral
    }
}

/// The notes after one more line. A line that begins a section switches to
/// it; a severity line sets the severity; any other line is added to the
/// critique, or, where it begins with `-` or `*`, to the suggestions.
pub open spec fn note_line(notes: Notes, line: Seq<char>) -> Notes {
    let t = trimmed(line);
    if has_prefix(t, "CRITIQUE:"@) {
        Notes { section: 1, ..notes }
    } else if has_prefix(t, "SUGGESTIONS:"@) {
        Notes { section: 2, ..notes }
    } else if has_prefix(t, "SEVERITY:"@) {
        Notes {
            severity: severity_of(uppercase(trimmed(replaced(t, "SEVERITY:"@, ""@)))),
            ..notes
        }
    } else if notes.section == 1 {
        Notes { critique: notes.critique + t + "\n"@, ..notes }
    } else if notes.section == 2 && (has_prefix(t, "-"@) || has_prefix(t, "*"@)) {
        Notes {
            suggestions: notes.suggestions.push(trimmed(t.subrange(1, t.len() as int))),
            ..notes
        }
    } else {
        notes
    }
}

/// The notes after the lines from index `i` on.
pub open spec fn note_lines(notes: Notes, lines: Seq<Seq<char>>, i: int) -> Notes
    decreases lines.len() - i,
{
    if i < 0 || i >= lines.len() {
        notes
    } else {
        note_lines(note_line(notes, lines[i]), lines, i + 1)
    }
}

/// What a persona's response says, read line by line.
pub open spec fn round_of(persona: Seq<char>, response: Seq<char>) -> RoundV {
    let start = Notes {
        section: 0,
        critique: Seq::empty(),
        suggestions: Seq::empty(),
        severity: DebateSeverity::Neutral,
    };
    let notes = note_lines(start, lines_of(response), 0);
    RoundV {
        persona,
        critique: trimmed(notes.critique),
        suggestions: notes.suggestions,
        severity: notes.severity,
    }
}

/// The rank of the things to do that a finding of this severity asks for.
pub open spec fn priority_of(severity: DebateSeverity) -> u8 {
    match severity {
        DebateSeverity::Critical => 1,
        DebateSeverity::Important => 2,
        DebateSeverity::Minor => 3,
        DebateSeverity::Neutral => 4,
    }
}

/// The things to do that one round asks for: one for each suggestion, in
/// order, assigned to the persona.
pub open spec fn round_items(round: RoundV) -> Seq<ActionItemV> {
    Seq::new(
        round.suggestions.len(),
        |i: int|
            ActionItemV {
                priority: priority_of(round.severity),
                description: round.suggestions[i],
                assigned_to: Some(round.persona),
            },
    )
}

/// The things to do of the rounds from index `i` on that have the given
/// severity, in the order of the rounds.
pub open spec fn items_at(rounds: Seq<RoundV>, severity: DebateSeverity, i: int) -> Seq<
    ActionItemV,
>
    decreases rounds.len() - i,
{
    if i < 0 || i >= rounds.len() {
        seq![]
    } else if rounds[i].severity == severity {
        round_items(rounds[i]) + items_at(rounds, severity, i + 1)
    } else {
        items_at(rounds, severity, i + 1)
    }
}

/// Whether a round has the given severity.
pub open spec fn any_at(rounds: Seq<RoundV>, severity: DebateSeverity) -> bool {
    exists|i: int| 0 <= i < rounds.len() && #[trigger] rounds[i].severity == severity
}

/// The values of a list of rounds.
pub open spec fn round_views(rounds: Seq<DebateRound>) -> Seq<RoundV> {
    rounds.map_values(|r: DebateRound| r@)
}

/// The values of a list of things to do.
pub open spec fn item_views(items: Seq<ActionItem>) -> Seq<ActionItemV> {
    items.map_values(|a: ActionItem| a@)
}

fn same_severity(a: DebateSeverity, b: DebateSeverity) -> (eq: bool)
    ensures
        eq == (a == b),
{
    match (a, b) {
        (DebateSeverity::Critical, DebateSeverity::Critical) => true,
        (DebateSeverity::Important, DebateSeverity::Important) => true,
        (DebateSeverity::Minor, DebateSeverity::Minor) => true,
        (DebateSeverity::Neutral, DebateSeverity::Neutral) => true,
        _ => false,
    }
}

fn priority(severity: DebateSeverity) -> (p: u8)
    ensures
        p == priority_of(severity),
{
    match severity {
        DebateSeverity::Critical => 1,
        DebateSeverity::Important => 2,
        DebateSeverity::Minor => 3,
        DebateSeverity::Neutral => 4,
    }
}

fn has_severity(rounds: &[DebateRound], severity: DebateSeverity) -> (found: bool)
    ensures
        found == any_at(round_views(rounds@), severity),
{
    let mut i: usize = 0;
    while i < rounds.len()
        invariant
            i <= rounds.len(),
            forall|k: int| 0 <= k < i ==> (#[trigger] round_views(rounds@)[k]).severity != severity,
        decreases rounds.len() - i,
    {
        if same_severity(rounds[i].severity, severity) {
            assert(round_views(rounds@)[i as int].severity == severity);
            return true;
        }
        i += 1;
    }
    false
}

fn collect_items(rounds: &[DebateRound], severity: DebateSeverity, out: &mut Vec<ActionItem>)
    ensures
        item_views(final(out)@) == item_views(old(out)@) + items_at(
            round_views(rounds@),
            severity,
            0,
        ),
{
    let ghost all = round_views(rounds@);
    let mut i: usize = 0;
    assert(item_views(out@) + Seq::<ActionItemV>::empty() =~= item_views(out@));
    while i < rounds.len()
        invariant
            i <= rounds.len(),
            all == round_views(rounds@),
            item_views(old(out)@) + items_at(all, severity, 0) == item_views(out@) + items_at(
                all,
                severity,
                i as int,
            ),
        decreases rounds.len() - i,
    {
        let round = &rounds[i];
        assert(all[i as int] == round@);
        if same_severity(round.severity, severity) {
            let ghost before = item_views(out@);
            let mut k: usize = 0;
            while k < round.suggestions.len()
                invariant
                    k <= round.suggestions.len(),
                    round.severity == severity,
                    item_views(out@) == before + round_items(round@).take(k as int),
                decreases round.suggestions.len() - k,
            {
                let item = ActionItem {
                    priority: priority(round.severity),
                    description: round.suggestions[k].clone(),
                    assigned_to: Some(round.persona.clone()),
                };
                let ghost so_far = item_views(out@);
                out.push(item);
                assert(item_views(out@) =~= so_far.push(item@));
                assert(round_items(round@).take(k + 1) =~= round_items(round@).take(
                    k as int,
                ).push(item@));
                k += 1;
            }
            assert(round_items(round@).take(round.suggestions.len() as int) =~= round_items(
                round@,
            ));
            assert(before + (round_items(round@) + items_at(all, severity, i + 1)) =~= (before
                + round_items(round@)) + items_at(all, severity, i + 1));
        }
        i += 1;
    }
    assert(item_views(out@) + Seq::<ActionItemV>::empty() =~= item_views(out@));
}

impl Debate {
    /// A debate without personas.
    pub fn new() -> (d: Self)
        ensures
            d@ == Seq::<PersonaV>::empty(),
    {
        let d = Debate { personas: Vec::new() };
        assert(d@ =~= Seq::<PersonaV>::empty());
        d
    }

    /// The debate with one more persona, who speaks last.
    pub fn with_persona(self, persona: Persona) -> (d: Self)
        ensures
            d@ == self@.push(persona@),
    {
        let mut d = self;
        d.personas.push(persona);
        assert(d@ =~= self@.push(persona@));
        d
    }

    /// The debate between the security auditor and the performance optimizer.
    pub fn security_vs_performance() -> (d: Self)
        ensures
            d@ == seq![security_auditor_view(), performance_optimizer_view()],
    {
        let d = Debate::new().with_persona(Persona::security_auditor()).with_persona(
            Persona::performance_optimizer(),
        );
        assert(d@ =~= seq![security_auditor_view(), performance_optimizer_view()]);
        d
    }

    /// The debate among all four personas.
    pub fn full_review() -> (d: Self)
        ensures
            d@ == seq![
                security_auditor_view(),
                performance_optimizer_view(),
                architecture_purist_view(),
                ux_advocate_view(),
            ],
    {
        let d = Debate::new().with_persona(Persona::security_auditor()).with_persona(
            Persona::performance_optimizer(),
        ).with_persona(Persona::architecture_purist()).with_persona(Persona::ux_advocate());
        assert(d@ =~= seq![
            security_auditor_view(),
            performance_optimizer_view(),
            architecture_purist_view(),
            ux_advocate_view(),
        ]);
        d
    }

    /// For each persona, in order, the persona's name and the request to
    /// put to that persona.
    pub fn generate_prompts(&self, context: &str, proposed_change: &str) -> (out: Vec<
        (String, String),
    >)
        ensures
            pair_views(out@).len() == self@.len(),
            forall|i: int|
                0 <= i < self@.len() ==> #[trigger] pair_views(out@)[i] == (
                    self@[i].name,
                    prompt_for(self@[i], context@, proposed_change@),
                ),
    {
        let mut out: Vec<(String, String)> = Vec::new();
        let mut i: usize = 0;
        while i < self.personas.len()
            invariant
                i <= self.personas.len(),
                out@.len() == i,
                forall|k: int|
                    0 <= k < i ==> #[trigger] pair_views(out@)[k] == (
                        self@[k].name,
                        prompt_for(self@[k], context@, proposed_change@),
                    ),
            decreases self.personas.len() - i,
        {
            let p = &self.personas[i];
            assert(self@[i as int] == p@);
            let mut buf = chars_of(p.system_prompt.as_str());
            push_str(&mut buf, "\n\n## Context\n");
            push_str(&mut buf, context);
            push_str(&mut buf, "\n\n## Proposed Change\n");
            push_str(&mut buf, proposed_change);
            push_str(&mut buf, "\n\n## Your Review\nProvide your critique as ");
            push_str(&mut buf, p.name.as_str());
            push_str(
                &mut buf,
                ". Format your response as:\n\nCRITIQUE:\n[Your detailed analysis]\n\nSUGGESTIONS:\n- [Specific actionable suggestion 1]\n- [Specific actionable suggestion 2]\n\nSEVERITY: [CRITICAL|IMPORTANT|MINOR|NEUTRAL]",
            );
            let pair = (p.name.clone(), string_of(&buf));
            let ghost before = pair_views(out@);
            out.push(pair);
            assert(pair_views(out@) =~= before.push((pair.0@, pair.1@)));
            i += 1;
        }
        out
    }

    /// Reads what a persona answered.
    pub fn parse_response(persona: &str, response: &str) -> (out: DebateRound)
        ensures
            out@ == round_of(persona@, response@),
    {
        let all = lines(&chars_of(response));
        let mut section: u8 = 0;
        let mut critique: Vec<char> = Vec::new();
        let mut suggestions: Vec<String> = Vec::new();
        let mut severity = DebateSeverity::Neutral;
        let ghost start = Notes {
            section: 0,
            critique: Seq::empty(),
            suggestions: Seq::empty(),
            severity: DebateSeverity::Neutral,
        };
        let empty: Vec<char> = Vec::new();
        proof {
            reveal_strlit("");
            assert(empty@ =~= ""@);
            assert(texts(suggestions@) =~= Seq::<Seq<char>>::empty());
        }
        let mut i: usize = 0;
        while i < all.len()
            invariant
                i <= all.len(),
                empty@ == ""@,
                section <= 2,
                note_lines(start, rows(all@), 0) == note_lines(
                    Notes {
                        section: section as int,
                        critique: critique@,
                        suggestions: texts(suggestions@),
                        severity,
                    },
                    rows(all@),
                    i as int,
                ),
            decreases all.len() - i,
        {
            let t = trim(&all[i]);
            assert(rows(all@)[i as int] == all@[i as int]@);
            if starts_with(&t, &chars_of("CRITIQUE:")) {
                section = 1;
            } else if starts_with(&t, &chars_of("SUGGESTIONS:")) {
                section = 2;
            } else if starts_with(&t, &chars_of("SEVERITY:")) {
                let word = trim(&replace(&t, &chars_of("SEVERITY:"), &empty));
                let upper = chars_of(to_uppercase(string_of(&word).as_str()).as_str());
                severity = if same_text(&upper, &chars_of("CRITICAL")) {
                    DebateSeverity::Critical
                } else if same_text(&upper, &chars_of("IMPORTANT")) {
                    DebateSeverity::Important
                } else if same_text(&upper, &chars_of("MINOR")) {
                    DebateSeverity::Minor
                } else {
                    DebateSeverity::Neutral
                };
            } else if section == 1 {
                let ghost before = critique@;
                push_all(&mut critique, &t);
                push_str(&mut critique, "\n");
                assert(critique@ =~= before + t@ + "\n"@);
            } else if section == 2 && (starts_with(&t, &chars_of("-")) || starts_with(
                &t,
                &chars_of("*"),
            )) {
                proof {
                    reveal_strlit("-");
                    reveal_strlit("*");
                }
                let rest = trim(&slice_of(&t, 1, t.len()));
                let ghost before = texts(suggestions@);
                let s = string_of(&rest);
                suggestions.push(s);
                assert(texts(suggestions@) =~= before.push(s@));
            }
            i += 1;
        }
        DebateRound {
            persona: copy_str(persona),
            critique: string_of(&trim(&critique)),
            suggestions,
            severity,
        }
    }

    /// Merges the rounds of a debate: the things to do, the most urgent
    /// first and within one rank in the order of the rounds; a summary and a
    /// recommendation that go by the gravest finding.
    pub fn synthesize(rounds: &[DebateRound]) -> (out: DebateSynthesis)
        ensures
            item_views(out.action_items@) == items_at(
                round_views(rounds@),
                DebateSeverity::Critical,
                0,
            ) + items_at(round_views(rounds@), DebateSeverity::Important, 0) + items_at(
                round_views(rounds@),
                DebateSeverity::Minor,
                0,
            ) + items_at(round_views(rounds@), DebateSeverity::Neutral, 0),
            out.consensus_points@.len() == 0,
            out.conflicts@.len() == 0,
            out.summary@ == if any_at(round_views(rounds@), DebateSeverity::Critical) {
                "Critical issues identified that must be addressed before proceeding."@
            } else if any_at(round_views(rounds@), DebateSeverity::Important) {
                "Important concerns raised that should be addressed."@
            } else {
                "No significant issues identified. Proceed with minor adjustments if suggested."@
            },
            out.final_recommendation@ == if any_at(
                round_views(rounds@),
                DebateSeverity::Critical,
            ) {
                "HOLD: Address critical issues before implementation."@
            } else if any_at(round_views(rounds@), DebateSeverity::Important) {
                "PROCEED WITH CAUTION: Implement suggested improvements."@
            } else {
                "APPROVED: Proceed with implementation."@
            },
    {
        let has_critical = has_severity(rounds, DebateSeverity::Critical);
        let has_important = has_severity(rounds, DebateSeverity::Important);
        let mut action_items: Vec<ActionItem> = Vec::new();
        assert(item_views(action_items@) =~= Seq::<ActionItemV>::empty());
        collect_items(rounds, DebateSeverity::Critical, &mut action_items);
        collect_items(rounds, DebateSeverity::Important, &mut action_items);
        collect_items(rounds, DebateSeverity::Minor, &mut action_items);
        collect_items(rounds, DebateSeverity::Neutral, &mut action_items);
        let summary = if has_critical {
            copy_str("Critical issues identified that must be addressed before proceeding.")
        } else if has_important {
            copy_str("Important concerns raised that should be addressed.")
        } else {
            copy_str(
                "No significant issues identified. Proceed with minor adjustments if suggested.",
            )
        };
        let final_recommendation = if has_critical {
            copy_str("HOLD: Address critical issues before implementation.")
        } else if has_important {
            copy_str("PROCEED WITH CAUTION: Implement suggested improvements.")
        } else {
            copy_str("APPROVED: Proceed with implementation.")
        };
        DebateSynthesis {
            summary,
            consensus_points: Vec::new(),
            conflicts: Vec::new(),
            final_recommendation,
            action_items,
        }
    }
}

impl Default for Debate {
    fn default() -> (d: Self)
        ensures
            d@ == Seq::<PersonaV>::empty(),
    {
        Debate::new()
    }
}

} // verus!
