//! The attribute rules, and the rewriting of a manifest by them.
//!
//! A rule names an element and an attribute by their local names and says what
//! becomes of the attribute's value. Rewriting touches the start tags that a
//! rule names and nothing else: every other event, and every other attribute,
//! passes unchanged and in its place.

use crate::error::RewriteError;
use crate::events::{
    attribute_views, emit_manifest, emitted_manifest, event_views, lemma_event_views_push,
    parse_manifest, parsed_manifest, Attribute, AttributeView, ManifestEvent, ManifestEventView,
    OtherEvent, OtherEventView,
};
use crate::seqs::lemma_filter_push;
use crate::text::{chars_of, str_equal, string_of};
use vstd::prelude::*;

verus! {

/// What a rule does to the value of an attribute.
#[derive(Debug, Clone, Copy, PartialEq, Eq, Structural)]
pub enum RewriteAction {
    /// The value becomes empty.
    Clear,
    /// The value becomes one of the segments that `separator` divides it into:
    /// the one at `index`, counted from 0, or the empty value where it has no
    /// such segment.
    Segment { separator: char, index: usize },
}

/// A rule: on the element `element`, the attribute `attribute` is rewritten by
/// `action`. Both names are local names.
#[derive(Debug, Clone, PartialEq, Eq)]
pub struct AttributeRewriteRule {
    pub element: String,
    pub attribute: String,
    pub action: RewriteAction,
}

/// A rule with its names as sequences of characters.
pub struct RuleView {
    pub element: Seq<char>,
    pub attribute: Seq<char>,
    pub action: RewriteAction,
}

impl View for AttributeRewriteRule {
    type V = RuleView;

    open spec fn view(&self) -> RuleView {
        RuleView { element: self.element@, attribute: self.attribute@, action: self.action }
    }
}

/// The views of the rules, in their order.
pub open spec fn rule_views(rules: Seq<AttributeRewriteRule>) -> Seq<RuleView> {
    rules.map_values(|r: AttributeRewriteRule| r@)
}

/// How the components of a path are separated in a manifest, and which of
/// them names the component itself.
#[derive(Debug, Clone, Copy, PartialEq, Eq, Structural)]
pub enum PathDialect {
    /// Components separated by `/`; the third one is kept.
    Slash,
    /// Components separated by `\`; the second one is kept.
    Backslash,
}

impl PathDialect {
    /// The action that shortens a component path of this dialect.
    pub open spec fn spec_action(self) -> RewriteAction {
        match self {
            PathDialect::Slash => RewriteAction::Segment { separator: '/', index: 2 },
            PathDialect::Backslash => RewriteAction::Segment { separator: '\\', index: 1 },
        }
    }

    /// The action that shortens a component path of this dialect.
    #[verifier::when_used_as_spec(spec_action)]
    pub fn action(self) -> (r: RewriteAction)
        ensures
            r == self.spec_action(),
    {
        match self {
            PathDialect::Slash => RewriteAction::Segment { separator: '/', index: 2 },
            PathDialect::Backslash => RewriteAction::Segment { separator: '\\', index: 1 },
        }
    }
}

impl AttributeRewriteRule {
    /// The rule that rewrites `attribute` on `element` by `action`.
    pub fn new(element: &str, attribute: &str, action: RewriteAction) -> (r: AttributeRewriteRule)
        ensures
            r@ == (RuleView { element: element@, attribute: attribute@, action }),
    {
        AttributeRewriteRule {
            element: element.to_owned(),
            attribute: attribute.to_owned(),
            action,
        }
    }
}

/// The two rules of a catalog manifest: the base location of `Manifest` is
/// cleared, and the path of each `SoftwareComponent` is shortened as the
/// dialect says.
pub open spec fn standard_rule_views(dialect: PathDialect) -> Seq<RuleView> {
    seq![
        RuleView {
            element: "Manifest"@,
            attribute: "baseLocation"@,
            action: RewriteAction::Clear,
        },
        RuleView {
            element: "SoftwareComponent"@,
            attribute: "path"@,
            action: dialect.spec_action(),
        },
    ]
}

/// The two rules of a catalog manifest for the given dialect.
pub fn standard_rules(dialect: PathDialect) -> (rules: Vec<AttributeRewriteRule>)
    ensures
        rule_views(rules@) == standard_rule_views(dialect),
{
    let mut rules: Vec<AttributeRewriteRule> = Vec::new();
    rules.push(AttributeRewriteRule::new("Manifest", "baseLocation", RewriteAction::Clear));
    rules.push(AttributeRewriteRule::new("SoftwareComponent", "path", dialect.action()));
    rules
}

/// The position of the first `separator` in `value`, or the length of `value`
/// where it holds none.
pub open spec fn first_separator(value: Seq<char>, separator: char) -> int
    decreases value.len(),
{
    if value.len() == 0 || value[0] == separator {
        0
    } else {
        1 + first_separator(value.drop_first(), separator)
    }
}

/// The segment of `value` at `index`: what stands between the separators
/// number `index` and `index + 1`, the ends of `value` counting as separators
/// number 0 and last. Empty where `value` has fewer segments.
pub open spec fn segment(value: Seq<char>, separator: char, index: nat) -> Seq<char>
    decreases index,
{
    let end = first_separator(value, separator);
    if index == 0 {
        value.take(end)
    } else if end == value.len() {
        Seq::empty()
    } else {
        segment(value.skip(end + 1), separator, (index - 1) as nat)
    }
}

/// What `action` makes of `value`.
pub open spec fn rewritten_value(action: RewriteAction, value: Seq<char>) -> Seq<char> {
    match action {
        RewriteAction::Clear => Seq::empty(),
        RewriteAction::Segment { separator, index } => segment(value, separator, index as nat),
    }
}

/// The action of the first rule that names `element` and `attribute`.
pub open spec fn first_match(rules: Seq<RuleView>, element: Seq<char>, attribute: Seq<char>) -> Option<
    RewriteAction,
>
    decreases rules.len(),
{
    if rules.len() == 0 {
        None
    } else if rules[0].element == element && rules[0].attribute == attribute {
        Some(rules[0].action)
    } else {
        first_match(rules.drop_first(), element, attribute)
    }
}

/// What the rules make of one attribute of the element `element`.
pub open spec fn rewritten_attribute(
    rules: Seq<RuleView>,
    element: Seq<char>,
    attribute: AttributeView,
) -> AttributeView {
    match first_match(rules, element, attribute.name.local_name) {
        Some(action) => AttributeView {
            name: attribute.name,
            value: rewritten_value(action, attribute.value),
        },
        None => attribute,
    }
}

/// What the rules make of the attributes of the element `element`: each
/// attribute rewritten, in its place.
pub open spec fn rewritten_attributes(
    rules: Seq<RuleView>,
    element: Seq<char>,
    attributes: Seq<AttributeView>,
) -> Seq<AttributeView> {
    Seq::new(attributes.len(), |i: int| rewritten_attribute(rules, element, attributes[i]))
}

/// What the rules make of one event.
pub open spec fn rewritten_event(rules: Seq<RuleView>, event: ManifestEventView) -> ManifestEventView {
    match event {
        ManifestEventView::StartElement { name, attributes, namespace } => ManifestEventView::StartElement {
            name,
            attributes: rewritten_attributes(rules, name.local_name, attributes),
            namespace,
        },
        _ => event,
    }
}

/// Whether an event is written out: every event is, but for the document
/// declaration of a document that began without one.
pub open spec fn is_kept(event: ManifestEventView, keep_declaration: bool) -> bool {
    keep_declaration || !(event matches ManifestEventView::Other(
        OtherEventView::StartDocument { .. },
    ))
}

/// The condition that selects the events that are written out.
pub open spec fn kept(keep_declaration: bool) -> spec_fn(ManifestEventView) -> bool {
    |event: ManifestEventView| is_kept(event, keep_declaration)
}

/// The events that are written out for the events of a manifest: those that
/// are kept, each rewritten, in their order.
pub open spec fn outgoing_events(
    rules: Seq<RuleView>,
    events: Seq<ManifestEventView>,
    keep_declaration: bool,
) -> Seq<ManifestEventView> {
    let kept_events = events.filter(kept(keep_declaration));
    Seq::new(kept_events.len(), |i: int| rewritten_event(rules, kept_events[i]))
}

/// Whether a byte is a space, a tab, a line feed or a carriage return.
pub open spec fn is_blank(byte: u8) -> bool {
    byte == 0x20 || byte == 0x09 || byte == 0x0a || byte == 0x0d
}

/// `<?xml` and a blank stand in `document` at `at`.
pub open spec fn declaration_at(document: Seq<u8>, at: int) -> bool {
    &&& 0 <= at
    &&& at + 6 <= document.len()
    &&& document[at] == 0x3c
    &&& document[at + 1] == 0x3f
    &&& document[at + 2] == 0x78
    &&& document[at + 3] == 0x6d
    &&& document[at + 4] == 0x6c
    &&& is_blank(document[at + 5])
}

/// Whether a document begins with a document declaration, directly or after
/// a UTF-8 byte-order mark.
pub open spec fn has_declaration(document: Seq<u8>) -> bool {
    ||| declaration_at(document, 0)
    ||| {
        &&& document.len() >= 3
        &&& document[0] == 0xef
        &&& document[1] == 0xbb
        &&& document[2] == 0xbf
        &&& declaration_at(document, 3)
    }
}

/// The rewritten form of a manifest: the document that the writer produces
/// for the outgoing events of the manifest; a failure where the reader or the
/// writer fails.
pub open spec fn rewritten_manifest(manifest: Seq<u8>, rules: Seq<RuleView>) -> Result<
    Seq<u8>,
    RewriteError,
> {
    match parsed_manifest(manifest) {
        None => Err(RewriteError::MalformedInput),
        Some(events) => match emitted_manifest(
            outgoing_events(rules, events, has_declaration(manifest)),
        ) {
            None => Err(RewriteError::MalformedInput),
            Some(document) => Ok(document),
        },
    }
}

/// The first separator of a value is where a scan from the left finds it.
pub proof fn lemma_first_separator(value: Seq<char>, separator: char, at: int)
    requires
        0 <= at <= value.len(),
        forall|j: int| 0 <= j < at ==> value[j] != separator,
        at == value.len() || value[at] == separator,
    ensures
        first_separator(value, separator) == at,
    decreases value.len(),
{
    if value.len() == 0 || value[0] == separator {
    } else {
        let rest = value.drop_first();
        assert forall|j: int| 0 <= j < at - 1 implies rest[j] != separator by {}
        lemma_first_separator(rest, separator, at - 1);
    }
}

/// The first separator lies within the value, with no separator before it.
pub proof fn lemma_first_separator_bounds(value: Seq<char>, separator: char)
    ensures
        0 <= first_separator(value, separator) <= value.len(),
        forall|j: int|
            0 <= j < first_separator(value, separator) ==> value[j] != separator,
        first_separator(value, separator) < value.len() ==> value[first_separator(
            value,
            separator,
        )] == separator,
    decreases value.len(),
{
    if value.len() == 0 || value[0] == separator {
    } else {
        let rest = value.drop_first();
        lemma_first_separator_bounds(rest, separator);
        assert forall|j: int| 0 <= j < first_separator(value, separator) implies value[j]
            != separator by {
            if j > 0 {
                assert(rest[j - 1] == value[j]);
            }
        }
    }
}

/// A segment holds no separator.
pub proof fn lemma_segment_has_no_separator(value: Seq<char>, separator: char, index: nat)
    ensures
        forall|j: int|
            0 <= j < segment(value, separator, index).len() ==> segment(value, separator, index)[j]
                != separator,
    decreases index,
{
    lemma_first_separator_bounds(value, separator);
    let end = first_separator(value, separator);
    let result = segment(value, separator, index);
    if index == 0 {
        assert forall|j: int| 0 <= j < result.len() implies result[j] != separator by {}
    } else if end == value.len() {
    } else {
        let rest = value.skip(end + 1);
        lemma_segment_has_no_separator(rest, separator, (index - 1) as nat);
        assert(result == segment(rest, separator, (index - 1) as nat));
        assert forall|j: int| 0 <= j < result.len() implies result[j] != separator by {}
    }
}

/// A value without separator is its own first segment and has no other.
pub proof fn lemma_segment_of_plain_value(value: Seq<char>, separator: char, index: nat)
    requires
        forall|j: int| 0 <= j < value.len() ==> value[j] != separator,
    ensures
        segment(value, separator, index) == if index == 0 {
            value
        } else {
            Seq::<char>::empty()
        },
{
    lemma_first_separator(value, separator, value.len() as int);
}

/// Rewriting a value that has been rewritten before never fails and settles:
/// the second rewriting of a value gives the first result again where the rule
/// keeps the first segment, and the empty value otherwise; from then on the
/// value no longer changes.
pub proof fn lemma_rewriting_settles(action: RewriteAction, value: Seq<char>)
    ensures
        ({
            let once = rewritten_value(action, value);
            let twice = rewritten_value(action, once);
            &&& twice == match action {
                RewriteAction::Clear => Seq::<char>::empty(),
                RewriteAction::Segment { separator, index } => if index == 0 {
                    once
                } else {
                    Seq::<char>::empty()
                },
            }
            &&& rewritten_value(action, twice) == twice
        }),
{
    match action {
        RewriteAction::Clear => {},
        RewriteAction::Segment { separator, index } => {
            let once = segment(value, separator, index as nat);
            lemma_segment_has_no_separator(value, separator, index as nat);
            lemma_segment_of_plain_value(once, separator, index as nat);
            let twice = segment(once, separator, index as nat);
            lemma_segment_of_plain_value(twice, separator, index as nat);
        },
    }
}

/// No rule applies to an attribute of an element that no rule names.
pub proof fn lemma_unnamed_element_has_no_match(
    rules: Seq<RuleView>,
    element: Seq<char>,
    attribute: Seq<char>,
)
    requires
        forall|k: int| 0 <= k < rules.len() ==> rules[k].element != element,
    ensures
        first_match(rules, element, attribute) is None,
    decreases rules.len(),
{
    if rules.len() > 0 {
        let rest = rules.drop_first();
        assert forall|k: int| 0 <= k < rest.len() implies rest[k].element != element by {}
        lemma_unnamed_element_has_no_match(rest, element, attribute);
    }
}

/// Whether the rules change nothing in an event: it is no start tag, or none
/// of its attributes is named by a rule for its element.
pub open spec fn is_untouched(rules: Seq<RuleView>, event: ManifestEventView) -> bool {
    match event {
        ManifestEventView::StartElement { name, attributes, .. } => forall|j: int|
            0 <= j < attributes.len() ==> first_match(
                rules,
                name.local_name,
                #[trigger] attributes[j].name.local_name,
            ) is None,
        _ => true,
    }
}

/// Whether no rule names the element of an event.
pub open spec fn is_unnamed(rules: Seq<RuleView>, event: ManifestEventView) -> bool {
    match event {
        ManifestEventView::StartElement { name, .. } => forall|k: int|
            0 <= k < rules.len() ==> (#[trigger] rules[k]).element != name.local_name,
        _ => true,
    }
}

/// An event whose element no rule names is untouched.
pub proof fn lemma_unnamed_is_untouched(rules: Seq<RuleView>, event: ManifestEventView)
    requires
        is_unnamed(rules, event),
    ensures
        is_untouched(rules, event),
{
    match event {
        ManifestEventView::StartElement { name, attributes, .. } => {
            assert forall|j: int| 0 <= j < attributes.len() implies first_match(
                rules,
                name.local_name,
                #[trigger] attributes[j].name.local_name,
            ) is None by {
                lemma_unnamed_element_has_no_match(
                    rules,
                    name.local_name,
                    attributes[j].name.local_name,
                );
            }
        },
        _ => {},
    }
}

/// An untouched event is rewritten to itself.
pub proof fn lemma_untouched_event_passes(rules: Seq<RuleView>, event: ManifestEventView)
    requires
        is_untouched(rules, event),
    ensures
        rewritten_event(rules, event) == event,
{
    match event {
        ManifestEventView::StartElement { name, attributes, .. } => {
            assert(rewritten_attributes(rules, name.local_name, attributes) =~= attributes);
        },
        _ => {},
    }
}

/// Where the rules touch no event of a manifest, the events that are written
/// out are the events of the manifest as they stand, without the document
/// declaration where it is not kept.
pub proof fn lemma_untouched_events_pass(
    rules: Seq<RuleView>,
    events: Seq<ManifestEventView>,
    keep_declaration: bool,
)
    requires
        forall|i: int| 0 <= i < events.len() ==> is_untouched(rules, #[trigger] events[i]),
    ensures
        outgoing_events(rules, events, keep_declaration) == events.filter(kept(keep_declaration)),
{
    let kept_events = events.filter(kept(keep_declaration));
    assert forall|i: int| 0 <= i < kept_events.len() implies rewritten_event(
        rules,
        kept_events[i],
    ) == kept_events[i] by {
        events.lemma_filter_contains_rev(kept(keep_declaration), kept_events[i]);
        lemma_untouched_event_passes(rules, kept_events[i]);
    }
}

/// Rewriting a manifest in which no rule names an element gives what
/// rewriting it without any rule gives: the document is read and written,
/// and nothing in it is changed.
pub proof fn lemma_unnamed_manifest_passes(manifest: Seq<u8>, rules: Seq<RuleView>)
    requires
        parsed_manifest(manifest) matches Some(events) ==> forall|i: int|
            0 <= i < events.len() ==> is_unnamed(rules, #[trigger] events[i]),
    ensures
        rewritten_manifest(manifest, rules) == rewritten_manifest(manifest, Seq::empty()),
{
    match parsed_manifest(manifest) {
        Some(events) => {
            let keep_declaration = has_declaration(manifest);
            assert forall|i: int| 0 <= i < events.len() implies is_untouched(
                rules,
                #[trigger] events[i],
            ) by {
                lemma_unnamed_is_untouched(rules, events[i]);
            }
            assert forall|i: int| 0 <= i < events.len() implies is_untouched(
                Seq::<RuleView>::empty(),
                #[trigger] events[i],
            ) by {
                lemma_unnamed_is_untouched(Seq::<RuleView>::empty(), events[i]);
            }
            lemma_untouched_events_pass(rules, events, keep_declaration);
            lemma_untouched_events_pass(Seq::<RuleView>::empty(), events, keep_declaration);
        },
        None => {},
    }
}

fn string_of_range(chars: &Vec<char>, from: usize, to: usize) -> (r: String)
    requires
        from <= to <= chars.len(),
    ensures
        r@ == chars@.subrange(from as int, to as int),
{
    let mut part: Vec<char> = Vec::new();
    let mut i: usize = from;
    while i < to
        invariant
            from <= i <= to,
            to <= chars.len(),
            part@ == chars@.subrange(from as int, i as int),
        decreases to - i,
    {
        part.push(chars[i]);
        i += 1;
    }
    string_of(&part)
}

/// Rewrites one attribute value.
pub fn rewrite_value(action: RewriteAction, value: &str) -> (r: String)
    ensures
        r@ == rewritten_value(action, value@),
{
    match action {
        RewriteAction::Clear => String::new(),
        RewriteAction::Segment { separator, index } => {
            let chars = chars_of(value);
            let mut start: usize = 0;
            let mut passed: usize = 0;
            let mut i: usize = 0;
            proof {
                assert(chars@.skip(0) == chars@);
            }
            while i < chars.len()
                invariant
                    chars@ == value@,
                    action == (RewriteAction::Segment { separator, index }),
                    start <= i <= chars.len(),
                    passed <= index,
                    forall|j: int| start <= j < i ==> chars@[j] != separator,
                    segment(chars@, separator, index as nat) == segment(
                        chars@.skip(start as int),
                        separator,
                        (index - passed) as nat,
                    ),
                decreases chars.len() - i,
            {
                if chars[i] == separator {
                    proof {
                        let rest = chars@.skip(start as int);
                        assert forall|j: int| 0 <= j < i - start implies rest[j] != separator by {}
                        lemma_first_separator(rest, separator, i - start);
                        assert(rest.skip(i - start + 1) == chars@.skip(i + 1));
                    }
                    if passed == index {
                        return string_of_range(&chars, start, i);
                    }
                    passed += 1;
                    start = i + 1;
                }
                i += 1;
            }
            proof {
                let rest = chars@.skip(start as int);
                assert forall|j: int| 0 <= j < rest.len() implies rest[j] != separator by {}
                lemma_first_separator(rest, separator, rest.len() as int);
            }
            if passed == index {
                string_of_range(&chars, start, chars.len())
            } else {
                String::new()
            }
        },
    }
}

/// The action that the rules give for an attribute of an element, if any.
pub fn find_action(rules: &Vec<AttributeRewriteRule>, element: &str, attribute: &str) -> (r: Option<
    RewriteAction,
>)
    ensures
        r == first_match(rule_views(rules@), element@, attribute@),
{
    let mut i: usize = 0;
    proof {
        assert(rule_views(rules@).skip(0) == rule_views(rules@));
    }
    while i < rules.len()
        invariant
            i <= rules.len(),
            first_match(rule_views(rules@), element@, attribute@) == first_match(
                rule_views(rules@).skip(i as int),
                element@,
                attribute@,
            ),
        decreases rules.len() - i,
    {
        let rule = &rules[i];
        proof {
            let rest = rule_views(rules@).skip(i as int);
            assert(rest.drop_first() == rule_views(rules@).skip(i + 1));
        }
        if str_equal(rule.element.as_str(), element) && str_equal(rule.attribute.as_str(), attribute) {
            return Some(rule.action);
        }
        i += 1;
    }
    None
}

/// Rewrites the attributes of the element `element`.
pub fn rewrite_attributes(
    rules: &Vec<AttributeRewriteRule>,
    element: &str,
    attributes: Vec<Attribute>,
) -> (r: Vec<Attribute>)
    ensures
        attribute_views(r@) == rewritten_attributes(
            rule_views(rules@),
            element@,
            attribute_views(attributes@),
        ),
{
    let mut r: Vec<Attribute> = Vec::new();
    for a in it: attributes.into_iter()
        invariant
            it.seq() == attributes@,
            attribute_views(r@) == rewritten_attributes(
                rule_views(rules@),
                element@,
                attribute_views(it.seq().take(it.index())),
            ),
    {
        let ghost before = r@;
        let rewritten = match find_action(rules, element, a.name.local_name.as_str()) {
            Some(action) => {
                let value = rewrite_value(action, a.value.as_str());
                Attribute { name: a.name, value }
            },
            None => a,
        };
        r.push(rewritten);
        proof {
            assert(attribute_views(r@) =~= attribute_views(before).push(rewritten@));
        }
    }
    r
}

/// Rewrites one event: a start tag has its attributes rewritten, every other
/// event is returned as it came.
pub fn rewrite_event(rules: &Vec<AttributeRewriteRule>, event: ManifestEvent) -> (r: ManifestEvent)
    ensures
        r@ == rewritten_event(rule_views(rules@), event@),
{
    match event {
        ManifestEvent::StartElement { name, attributes, namespace } => {
            let attributes = rewrite_attributes(rules, name.local_name.as_str(), attributes);
            ManifestEvent::StartElement { name, attributes, namespace }
        },
        other => other,
    }
}

proof fn lemma_outgoing_push(
    rules: Seq<RuleView>,
    events: Seq<ManifestEventView>,
    event: ManifestEventView,
    keep_declaration: bool,
)
    ensures
        outgoing_events(rules, events.push(event), keep_declaration) == if is_kept(
            event,
            keep_declaration,
        ) {
            outgoing_events(rules, events, keep_declaration).push(rewritten_event(rules, event))
        } else {
            outgoing_events(rules, events, keep_declaration)
        },
{
    lemma_filter_push(events, event, kept(keep_declaration));
}

/// Rewrites the events of a manifest into the events that are written out.
pub fn rewrite_events(
    rules: &Vec<AttributeRewriteRule>,
    events: Vec<ManifestEvent>,
    keep_declaration: bool,
) -> (r: Vec<ManifestEvent>)
    ensures
        event_views(r@) == outgoing_events(rule_views(rules@), event_views(events@), keep_declaration),
{
    let mut r: Vec<ManifestEvent> = Vec::new();
    proof {
        reveal(Seq::filter);
    }
    for event in it: events.into_iter()
        invariant
            it.seq() == events@,
            event_views(r@) == outgoing_events(
                rule_views(rules@),
                event_views(it.seq().take(it.index())),
                keep_declaration,
            ),
    {
        let ghost before = r@;
        proof {
            let done = it.seq().take(it.index());
            assert(it.seq().take(it.index() + 1) == done.push(event));
            lemma_event_views_push(done, event);
            lemma_outgoing_push(rule_views(rules@), event_views(done), event@, keep_declaration);
        }
        let keep = keep_declaration || match &event {
            ManifestEvent::Other(OtherEvent::StartDocument { .. }) => false,
            _ => true,
        };
        if keep {
            let rewritten = rewrite_event(rules, event);
            proof {
                lemma_event_views_push(before, rewritten);
            }
            r.push(rewritten);
        }
    }
    proof {
        assert(events@.take(events@.len() as int) == events@);
    }
    r
}

fn declaration_starts(document: &[u8], at: usize) -> (r: bool)
    requires
        at <= 3,
    ensures
        r == declaration_at(document@, at as int),
{
    if document.len() < at + 6 {
        return false;
    }
    let blank = document[at + 5];
    document[at] == 0x3c && document[at + 1] == 0x3f && document[at + 2] == 0x78 && document[at
        + 3] == 0x6d && document[at + 4] == 0x6c && (blank == 0x20 || blank == 0x09 || blank
        == 0x0a || blank == 0x0d)
}

/// Whether a document begins with a document declaration.
pub fn begins_with_declaration(document: &[u8]) -> (r: bool)
    ensures
        r == has_declaration(document@),
{
    if declaration_starts(document, 0) {
        return true;
    }
    document.len() >= 3 && document[0] == 0xef && document[1] == 0xbb && document[2] == 0xbf
        && declaration_starts(document, 3)
}

/// Rewrites a manifest held in memory and returns the rewritten document.
///
/// The manifest is read to its end before anything is produced, so a
/// malformed manifest yields `MalformedInput` and no partial document.
pub fn handle_xml(manifest: &[u8], rules: &Vec<AttributeRewriteRule>) -> (r: Result<
    Vec<u8>,
    RewriteError,
>)
    ensures
        match r {
            Ok(document) => rewritten_manifest(manifest@, rule_views(rules@)) == Ok::<
                Seq<u8>,
                RewriteError,
            >(document@),
            Err(e) => rewritten_manifest(manifest@, rule_views(rules@)) == Err::<
                Seq<u8>,
                RewriteError,
            >(e),
        },
{
    let keep_declaration = begins_with_declaration(manifest);
    match parse_manifest(manifest) {
        Ok(events) => emit_manifest(rewrite_events(rules, events, keep_declaration)),
        Err(e) => Err(e),
    }
}

} // verus!
