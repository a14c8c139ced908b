//! The pattern registry: stores library patterns keyed by library and
//! pattern name (last write wins), answers equivalence queries by semantic
//! intent, and ranks transformation suggestions — an exact, author-declared
//! rule always outranks an inferred semantic match.

use vstd::prelude::*;
use crate::errors::CoalesceError;
use crate::patterns::{django_patterns_shape, networking_patterns_shape, react_patterns_shape, spec_rule_for, LibraryPattern};
use crate::strutil::str_eq;

verus! {

/// The index of the pattern stored under a library and pattern name.
pub open spec fn spec_pat_index(s: Seq<LibraryPattern>, lib: Seq<char>, name: Seq<char>) -> Option<
    int,
>
    decreases s.len(),
{
    if s.len() == 0 {
        None
    } else if s[0].library@ == lib && s[0].name@ == name {
        Some(0)
    } else {
        match spec_pat_index(s.drop_first(), lib, name) {
            Some(i) => Some(i + 1),
            None => None,
        }
    }
}

/// The pattern stored under a library and pattern name.
pub open spec fn spec_get(s: Seq<LibraryPattern>, lib: Seq<char>, name: Seq<char>) -> Option<
    LibraryPattern,
> {
    match spec_pat_index(s, lib, name) {
        Some(i) => Some(s[i]),
        None => None,
    }
}

/// The patterns of one library, in registration order.
pub open spec fn spec_lib_patterns(s: Seq<LibraryPattern>, lib: Seq<char>) -> Seq<LibraryPattern>
    decreases s.len(),
{
    if s.len() == 0 {
        Seq::empty()
    } else if s[0].library@ == lib {
        seq![s[0]] + spec_lib_patterns(s.drop_first(), lib)
    } else {
        spec_lib_patterns(s.drop_first(), lib)
    }
}

/// The patterns whose semantic intent equals the given one, in
/// registration order.
pub open spec fn spec_equivalents(s: Seq<LibraryPattern>, intent: Seq<char>) -> Seq<LibraryPattern>
    decreases s.len(),
{
    if s.len() == 0 {
        Seq::empty()
    } else if s[0].semantics.intent@ == intent {
        seq![s[0]] + spec_equivalents(s.drop_first(), intent)
    } else {
        spec_equivalents(s.drop_first(), intent)
    }
}

/// The ecosystems recorded under a library name.
pub open spec fn spec_ecosystems(s: Seq<(String, Vec<String>)>, lib: Seq<char>) -> Option<
    Seq<Seq<char>>,
>
    decreases s.len(),
{
    if s.len() == 0 {
        None
    } else if s[0].0@ == lib {
        Some(s[0].1.deep_view())
    } else {
        spec_ecosystems(s.drop_first(), lib)
    }
}

/// The registry of library patterns and of known target ecosystems per
/// library.
pub struct LibraryRegistry {
    pub patterns: Vec<LibraryPattern>,
    pub ecosystems: Vec<(String, Vec<String>)>,
}

/// A first pattern index found by scan agrees with the specification.
proof fn lemma_pat_index_found(s: Seq<LibraryPattern>, lib: Seq<char>, name: Seq<char>, i: int)
    requires
        0 <= i < s.len(),
        s[i].library@ == lib && s[i].name@ == name,
        forall|j: int|
            0 <= j < i ==> !((#[trigger] s[j]).library@ == lib && s[j].name@ == name),
    ensures
        spec_pat_index(s, lib, name) == Some(i),
    decreases i,
{
    if i > 0 {
        assert(s.drop_first()[i - 1] == s[i]);
        assert(forall|j: int|
            0 <= j < i - 1 ==> !((#[trigger] s.drop_first()[j]).library@ == lib
                && s.drop_first()[j].name@ == name));
        lemma_pat_index_found(s.drop_first(), lib, name, i - 1);
    }
}

/// A scan that found no pattern agrees with the specification.
proof fn lemma_pat_index_none(s: Seq<LibraryPattern>, lib: Seq<char>, name: Seq<char>)
    requires
        forall|j: int|
            0 <= j < s.len() ==> !((#[trigger] s[j]).library@ == lib && s[j].name@ == name),
    ensures
        spec_pat_index(s, lib, name) is None,
    decreases s.len(),
{
    if s.len() > 0 {
        assert(forall|j: int|
            0 <= j < s.drop_first().len() ==> !((#[trigger] s.drop_first()[j]).library@ == lib
                && s.drop_first()[j].name@ == name));
        lemma_pat_index_none(s.drop_first(), lib, name);
    }
}

impl LibraryRegistry {
    /// An empty registry.
    pub fn new() -> (r: LibraryRegistry)
        ensures
            r.patterns@.len() == 0,
            r.ecosystems@.len() == 0,
    {
        LibraryRegistry { patterns: Vec::new(), ecosystems: Vec::new() }
    }

    /// Finds the index of the pattern stored under a library and pattern
    /// name.
    fn find_pattern_index(&self, library: &str, pattern_name: &str) -> (r: Option<usize>)
        ensures
            match r {
                Some(i) => i < self.patterns@.len() && spec_pat_index(
                    self.patterns@,
                    library@,
                    pattern_name@,
                ) == Some(i as int),
                None => spec_pat_index(self.patterns@, library@, pattern_name@) is None,
            },
    {
        let n = self.patterns.len();
        let mut i: usize = 0;
        while i < n
            invariant
                i <= n,
                n == self.patterns@.len(),
                forall|j: int|
                    0 <= j < i ==> !((#[trigger] self.patterns@[j]).library@ == library@
                        && self.patterns@[j].name@ == pattern_name@),
            decreases n - i,
        {
            if str_eq(self.patterns[i].library.as_str(), library) && str_eq(
                self.patterns[i].name.as_str(),
                pattern_name,
            ) {
                proof {
                    lemma_pat_index_found(self.patterns@, library@, pattern_name@, i as int);
                }
                return Some(i);
            }
            i += 1;
        }
        proof {
            lemma_pat_index_none(self.patterns@, library@, pattern_name@);
        }
        None
    }

    /// Stores a pattern under its library and pattern name; a pattern
    /// already stored under the same key is replaced.
    pub fn register_pattern(&mut self, pattern: LibraryPattern) -> (r: Result<(), CoalesceError>)
        ensures
            r is Ok,
            final(self).ecosystems == old(self).ecosystems,
            match spec_pat_index(old(self).patterns@, pattern.library@, pattern.name@) {
                Some(i) => final(self).patterns@ == old(self).patterns@.update(i, pattern),
                None => final(self).patterns@ == old(self).patterns@.push(pattern),
            },
    {
        match self.find_pattern_index(pattern.library.as_str(), pattern.name.as_str()) {
            Some(i) => {
                let ghost pre = self.patterns@;
                self.patterns.remove(i);
                self.patterns.insert(i, pattern);
                proof {
                    assert(self.patterns@ =~= pre.update(i as int, pattern));
                }
            },
            None => {
                self.patterns.push(pattern);
            },
        }
        Ok(())
    }

    /// Looks up a pattern by library and pattern name.
    pub fn get_pattern(&self, library: &str, pattern_name: &str) -> (r: Option<&LibraryPattern>)
        ensures
            match r {
                Some(p) => spec_get(self.patterns@, library@, pattern_name@) == Some(*p),
                None => spec_get(self.patterns@, library@, pattern_name@) is None,
            },
    {
        match self.find_pattern_index(library, pattern_name) {
            Some(i) => Some(&self.patterns[i]),
            None => None,
        }
    }

    /// The patterns of one library, in registration order; nothing when
    /// the library has none.
    pub fn get_library_patterns(&self, library: &str) -> (r: Option<Vec<&LibraryPattern>>)
        ensures
            match r {
                Some(v) => v@.map_values(|p: &LibraryPattern| *p) == spec_lib_patterns(
                    self.patterns@,
                    library@,
                ) && v@.len() > 0,
                None => spec_lib_patterns(self.patterns@, library@).len() == 0,
            },
    {
        let mut out: Vec<&LibraryPattern> = Vec::new();
        let n = self.patterns.len();
        proof {
            assert(self.patterns@.skip(0) =~= self.patterns@);
            assert(out@.map_values(|p: &LibraryPattern| *p) + spec_lib_patterns(
                self.patterns@.skip(0),
                library@,
            ) =~= spec_lib_patterns(self.patterns@, library@));
        }
        let mut i: usize = 0;
        while i < n
            invariant
                i <= n,
                n == self.patterns@.len(),
                spec_lib_patterns(self.patterns@, library@) =~= out@.map_values(
                    |p: &LibraryPattern| *p,
                ) + spec_lib_patterns(self.patterns@.skip(i as int), library@),
            decreases n - i,
        {
            proof {
                assert(self.patterns@.skip(i as int)[0] == self.patterns@[i as int]);
                assert(self.patterns@.skip(i as int).drop_first() =~= self.patterns@.skip(i + 1));
            }
            if str_eq(self.patterns[i].library.as_str(), library) {
                let ghost pre = out@.map_values(|p: &LibraryPattern| *p);
                out.push(&self.patterns[i]);
                proof {
                    assert(out@.map_values(|p: &LibraryPattern| *p) =~= pre.push(
                        self.patterns@[i as int],
                    ));
                    assert(pre.push(self.patterns@[i as int]) + spec_lib_patterns(
                        self.patterns@.skip(i + 1),
                        library@,
                    ) =~= pre + (seq![self.patterns@[i as int]] + spec_lib_patterns(
                        self.patterns@.skip(i + 1),
                        library@,
                    )));
                }
            }
            i += 1;
        }
        proof {
            assert(self.patterns@.skip(n as int).len() == 0);
            assert(out@.map_values(|p: &LibraryPattern| *p) + spec_lib_patterns(
                self.patterns@.skip(n as int),
                library@,
            ) =~= out@.map_values(|p: &LibraryPattern| *p));
        }
        if out.len() == 0 {
            None
        } else {
            Some(out)
        }
    }

    /// The known target ecosystems of a library; empty when none are
    /// recorded.
    pub fn get_target_ecosystems(&self, source_library: &str) -> (r: Vec<String>)
        ensures
            r.deep_view() == match spec_ecosystems(self.ecosystems@, source_library@) {
                Some(v) => v,
                None => Seq::<Seq<char>>::empty(),
            },
    {
        let n = self.ecosystems.len();
        proof {
            assert(self.ecosystems@.skip(0) =~= self.ecosystems@);
        }
        let mut i: usize = 0;
        while i < n
            invariant
                i <= n,
                n == self.ecosystems@.len(),
                spec_ecosystems(self.ecosystems@, source_library@) == spec_ecosystems(
                    self.ecosystems@.skip(i as int),
                    source_library@,
                ),
            decreases n - i,
        {
            proof {
                assert(self.ecosystems@.skip(i as int)[0] == self.ecosystems@[i as int]);
                assert(self.ecosystems@.skip(i as int).drop_first() =~= self.ecosystems@.skip(
                    i + 1,
                ));
            }
            if str_eq(self.ecosystems[i].0.as_str(), source_library) {
                return crate::strutil::clone_strings(&self.ecosystems[i].1);
            }
            i += 1;
        }
        proof {
            assert(self.ecosystems@.skip(n as int).len() == 0);
        }
        Vec::new()
    }

    /// The registered patterns whose semantic intent equals the given one,
    /// in registration order.
    pub fn find_equivalent_patterns(&self, semantic_intent: &str) -> (r: Vec<&LibraryPattern>)
        ensures
            r@.map_values(|p: &LibraryPattern| *p) == spec_equivalents(
                self.patterns@,
                semantic_intent@,
            ),
    {
        let mut out: Vec<&LibraryPattern> = Vec::new();
        let n = self.patterns.len();
        proof {
            assert(self.patterns@.skip(0) =~= self.patterns@);
            assert(out@.map_values(|p: &LibraryPattern| *p) + spec_equivalents(
                self.patterns@.skip(0),
                semantic_intent@,
            ) =~= spec_equivalents(self.patterns@, semantic_intent@));
        }
        let mut i: usize = 0;
        while i < n
            invariant
                i <= n,
                n == self.patterns@.len(),
                spec_equivalents(self.patterns@, semantic_intent@) =~= out@.map_values(
                    |p: &LibraryPattern| *p,
                ) + spec_equivalents(self.patterns@.skip(i as int), semantic_intent@),
            decreases n - i,
        {
            proof {
                assert(self.patterns@.skip(i as int)[0] == self.patterns@[i as int]);
                assert(self.patterns@.skip(i as int).drop_first() =~= self.patterns@.skip(i + 1));
            }
            if str_eq(self.patterns[i].semantics.intent.as_str(), semantic_intent) {
                let ghost pre = out@.map_values(|p: &LibraryPattern| *p);
                out.push(&self.patterns[i]);
                proof {
                    assert(out@.map_values(|p: &LibraryPattern| *p) =~= pre.push(
                        self.patterns@[i as int],
                    ));
                    assert(pre.push(self.patterns@[i as int]) + spec_equivalents(
                        self.patterns@.skip(i + 1),
                        semantic_intent@,
                    ) =~= pre + (seq![self.patterns@[i as int]] + spec_equivalents(
                        self.patterns@.skip(i + 1),
                        semantic_intent@,
                    )));
                }
            }
            i += 1;
        }
        proof {
            assert(self.patterns@.skip(n as int).len() == 0);
            assert(out@.map_values(|p: &LibraryPattern| *p) + spec_equivalents(
                self.patterns@.skip(n as int),
                semantic_intent@,
            ) =~= out@.map_values(|p: &LibraryPattern| *p));
        }
        out
    }
}

/// How a suggestion was derived.
#[derive(Clone, Copy, PartialEq, Eq, Structural, Debug)]
pub enum SuggestionType {
    DirectTransform,
    SemanticEquivalent,
    ManualImplementation,
    PartialTransform,
}

/// Confidence of an exact, author-declared transformation rule, in
/// hundredths.
pub const DIRECT_CONFIDENCE: u32 = 100;

/// Confidence of an inferred semantic equivalent, in hundredths.
pub const EQUIVALENT_CONFIDENCE: u32 = 80;

/// A ranked suggestion for transforming a pattern to a target ecosystem.
#[derive(Debug)]
pub struct TransformationSuggestion {
    /// Confidence in hundredths: an exact rule scores full confidence, an
    /// inferred equivalent scores less.
    pub confidence: u32,
    pub suggestion_type: SuggestionType,
    pub target_library: String,
    pub target_pattern: String,
    pub description: String,
}

/// The value level of a suggestion.
pub ghost struct SuggestionModel {
    pub confidence: u32,
    pub suggestion_type: SuggestionType,
    pub target_library: Seq<char>,
    pub target_pattern: Seq<char>,
    pub description: Seq<char>,
}

/// The value level of a suggestion record.
pub open spec fn suggestion_model(s: TransformationSuggestion) -> SuggestionModel {
    SuggestionModel {
        confidence: s.confidence,
        suggestion_type: s.suggestion_type,
        target_library: s.target_library@,
        target_pattern: s.target_pattern@,
        description: s.description@,
    }
}

/// The direct suggestion of a pattern for a target ecosystem: one entry at
/// full confidence when an exact rule exists.
pub open spec fn spec_direct_suggestions(p: LibraryPattern, eco: Seq<char>) -> Seq<
    SuggestionModel,
> {
    match spec_rule_for(p.transformations@, eco) {
        Some(rule) => seq![
            SuggestionModel {
                confidence: DIRECT_CONFIDENCE,
                suggestion_type: SuggestionType::DirectTransform,
                target_library: rule.target_library@,
                target_pattern: rule.target_pattern@,
                description: "Direct transformation to "@ + eco,
            },
        ],
        None => Seq::empty(),
    }
}

/// The semantic-equivalent suggestions: one per registered pattern with
/// the same intent, in the target ecosystem, from a different library.
pub open spec fn spec_equiv_suggestions(
    pats: Seq<LibraryPattern>,
    intent: Seq<char>,
    eco: Seq<char>,
    src_lib: Seq<char>,
) -> Seq<SuggestionModel>
    decreases pats.len(),
{
    if pats.len() == 0 {
        Seq::empty()
    } else {
        let rest = spec_equiv_suggestions(pats.drop_first(), intent, eco, src_lib);
        if pats[0].semantics.intent@ == intent && pats[0].ecosystem@ == eco && pats[0].library@
            != src_lib {
            seq![
                SuggestionModel {
                    confidence: EQUIVALENT_CONFIDENCE,
                    suggestion_type: SuggestionType::SemanticEquivalent,
                    target_library: pats[0].library@,
                    target_pattern: pats[0].name@,
                    description: "Semantic equivalent: "@ + pats[0].name@,
                },
            ] + rest
        } else {
            rest
        }
    }
}

/// The ranked suggestions for transforming a pattern to a target
/// ecosystem: the direct rule first when one exists, then the semantic
/// equivalents in registration order.
pub open spec fn spec_suggestions(
    pats: Seq<LibraryPattern>,
    lib: Seq<char>,
    name: Seq<char>,
    eco: Seq<char>,
) -> Seq<SuggestionModel> {
    match spec_get(pats, lib, name) {
        Some(p) => spec_direct_suggestions(p, eco) + spec_equiv_suggestions(
            pats,
            p.semantics.intent@,
            eco,
            lib,
        ),
        None => Seq::empty(),
    }
}

/// Every semantic-equivalent suggestion carries equivalent confidence.
proof fn lemma_equiv_confidence(
    pats: Seq<LibraryPattern>,
    intent: Seq<char>,
    eco: Seq<char>,
    src_lib: Seq<char>,
)
    ensures
        forall|i: int|
            0 <= i < spec_equiv_suggestions(pats, intent, eco, src_lib).len() ==> {
                &&& (#[trigger] spec_equiv_suggestions(pats, intent, eco, src_lib)[i]).confidence
                    == EQUIVALENT_CONFIDENCE
                &&& spec_equiv_suggestions(pats, intent, eco, src_lib)[i].suggestion_type
                    == SuggestionType::SemanticEquivalent
            },
    decreases pats.len(),
{
    if pats.len() > 0 {
        lemma_equiv_confidence(pats.drop_first(), intent, eco, src_lib);
    }
}

/// The suggestion a registered pattern contributes as a semantic
/// equivalent.
pub open spec fn equiv_suggestion_of(q: LibraryPattern) -> SuggestionModel {
    SuggestionModel {
        confidence: EQUIVALENT_CONFIDENCE,
        suggestion_type: SuggestionType::SemanticEquivalent,
        target_library: q.library@,
        target_pattern: q.name@,
        description: "Semantic equivalent: "@ + q.name@,
    }
}

/// Whether a registered pattern qualifies as a semantic equivalent for an
/// intent, a target ecosystem and a source library.
pub open spec fn is_equiv_candidate(
    q: LibraryPattern,
    intent: Seq<char>,
    eco: Seq<char>,
    src_lib: Seq<char>,
) -> bool {
    q.semantics.intent@ == intent && q.ecosystem@ == eco && q.library@ != src_lib
}

/// Completeness of the equivalence suggestions: every registered pattern
/// with the queried intent, in the target ecosystem and from a different
/// library contributes its suggestion to the list.
pub proof fn lemma_equiv_suggestions_complete(
    pats: Seq<LibraryPattern>,
    intent: Seq<char>,
    eco: Seq<char>,
    src_lib: Seq<char>,
    i: int,
)
    requires
        0 <= i < pats.len(),
        is_equiv_candidate(pats[i], intent, eco, src_lib),
    ensures
        exists|j: int|
            0 <= j < spec_equiv_suggestions(pats, intent, eco, src_lib).len()
                && #[trigger] spec_equiv_suggestions(pats, intent, eco, src_lib)[j]
                == equiv_suggestion_of(pats[i]),
    decreases pats.len(),
{
    let out = spec_equiv_suggestions(pats, intent, eco, src_lib);
    let rest = spec_equiv_suggestions(pats.drop_first(), intent, eco, src_lib);
    if i == 0 {
        assert(out[0] == equiv_suggestion_of(pats[0]));
    } else {
        assert(pats.drop_first()[i - 1] == pats[i]);
        lemma_equiv_suggestions_complete(pats.drop_first(), intent, eco, src_lib, i - 1);
        let j = choose|j: int|
            0 <= j < rest.len() && #[trigger] rest[j] == equiv_suggestion_of(pats[i]);
        if is_equiv_candidate(pats[0], intent, eco, src_lib) {
            assert(out[j + 1] == rest[j]);
        } else {
            assert(out[j] == rest[j]);
        }
    }
}

/// Soundness of the equivalence suggestions: every suggestion on the list
/// is the one contributed by some qualifying registered pattern.
pub proof fn lemma_equiv_suggestions_sound(
    pats: Seq<LibraryPattern>,
    intent: Seq<char>,
    eco: Seq<char>,
    src_lib: Seq<char>,
    j: int,
)
    requires
        0 <= j < spec_equiv_suggestions(pats, intent, eco, src_lib).len(),
    ensures
        exists|i: int|
            0 <= i < pats.len() && is_equiv_candidate(#[trigger] pats[i], intent, eco, src_lib)
                && spec_equiv_suggestions(pats, intent, eco, src_lib)[j]
                == equiv_suggestion_of(pats[i]),
    decreases pats.len(),
{
    let out = spec_equiv_suggestions(pats, intent, eco, src_lib);
    let rest = spec_equiv_suggestions(pats.drop_first(), intent, eco, src_lib);
    if is_equiv_candidate(pats[0], intent, eco, src_lib) {
        if j == 0 {
            assert(is_equiv_candidate(pats[0], intent, eco, src_lib));
            assert(out[0] == equiv_suggestion_of(pats[0]));
        } else {
            lemma_equiv_suggestions_sound(pats.drop_first(), intent, eco, src_lib, j - 1);
            let i = choose|i: int|
                0 <= i < pats.drop_first().len() && is_equiv_candidate(
                    #[trigger] pats.drop_first()[i],
                    intent,
                    eco,
                    src_lib,
                ) && rest[j - 1] == equiv_suggestion_of(pats.drop_first()[i]);
            assert(pats[i + 1] == pats.drop_first()[i]);
            assert(out[j] == rest[j - 1]);
        }
    } else {
        lemma_equiv_suggestions_sound(pats.drop_first(), intent, eco, src_lib, j);
        let i = choose|i: int|
            0 <= i < pats.drop_first().len() && is_equiv_candidate(
                #[trigger] pats.drop_first()[i],
                intent,
                eco,
                src_lib,
            ) && rest[j] == equiv_suggestion_of(pats.drop_first()[i]);
        assert(pats[i + 1] == pats.drop_first()[i]);
    }
}

/// Ranking: when both a direct rule and semantic equivalents exist for a
/// target ecosystem, the direct rule comes first at full confidence, every
/// other suggestion is a semantic equivalent at lower confidence, and the
/// list is sorted by descending confidence.
pub proof fn lemma_suggestion_ranking(
    pats: Seq<LibraryPattern>,
    lib: Seq<char>,
    name: Seq<char>,
    eco: Seq<char>,
)
    requires
        spec_get(pats, lib, name) is Some,
        spec_rule_for(spec_get(pats, lib, name)->Some_0.transformations@, eco) is Some,
    ensures
        spec_suggestions(pats, lib, name, eco).len() >= 1,
        spec_suggestions(pats, lib, name, eco)[0].confidence == DIRECT_CONFIDENCE,
        spec_suggestions(pats, lib, name, eco)[0].suggestion_type
            == SuggestionType::DirectTransform,
        forall|i: int|
            1 <= i < spec_suggestions(pats, lib, name, eco).len() ==> {
                &&& (#[trigger] spec_suggestions(pats, lib, name, eco)[i]).confidence
                    == EQUIVALENT_CONFIDENCE
                &&& spec_suggestions(pats, lib, name, eco)[i].suggestion_type
                    == SuggestionType::SemanticEquivalent
            },
        forall|i: int, j: int|
            0 <= i <= j < spec_suggestions(pats, lib, name, eco).len() ==> (#[trigger] spec_suggestions(
                pats,
                lib,
                name,
                eco,
            )[i]).confidence >= (#[trigger] spec_suggestions(pats, lib, name, eco)[j]).confidence,
{
    let p = spec_get(pats, lib, name)->Some_0;
    lemma_equiv_confidence(pats, p.semantics.intent@, eco, lib);
}

impl LibraryRegistry {
    /// The ranked suggestions for transforming a registered pattern to a
    /// target ecosystem.
    pub fn get_transformation_suggestions(
        &self,
        source_library: &str,
        pattern_name: &str,
        target_ecosystem: &str,
    ) -> (r: Vec<TransformationSuggestion>)
        ensures
            r@.map_values(|s: TransformationSuggestion| suggestion_model(s)) == spec_suggestions(
                self.patterns@,
                source_library@,
                pattern_name@,
                target_ecosystem@,
            ),
    {
        let mut out: Vec<TransformationSuggestion> = Vec::new();
        let p = match self.get_pattern(source_library, pattern_name) {
            Some(p) => p,
            None => {
                proof {
                    assert(out@.map_values(|s: TransformationSuggestion| suggestion_model(s))
                        =~= Seq::<SuggestionModel>::empty());
                }
                return out;
            },
        };
        match p.rule_for(target_ecosystem) {
            Some(rule) => {
                let mut description = String::from_str("Direct transformation to ");
                description.append(target_ecosystem);
                out.push(
                    TransformationSuggestion {
                        confidence: DIRECT_CONFIDENCE,
                        suggestion_type: SuggestionType::DirectTransform,
                        target_library: rule.target_library.clone(),
                        target_pattern: rule.target_pattern.clone(),
                        description,
                    },
                );
            },
            None => {},
        }
        let ghost direct = out@.map_values(|s: TransformationSuggestion| suggestion_model(s));
        proof {
            assert(direct =~= spec_direct_suggestions(*p, target_ecosystem@));
        }
        let n = self.patterns.len();
        proof {
            assert(self.patterns@.skip(0) =~= self.patterns@);
            assert(direct + spec_equiv_suggestions(
                self.patterns@.skip(0),
                p.semantics.intent@,
                target_ecosystem@,
                source_library@,
            ) =~= direct + spec_equiv_suggestions(
                self.patterns@,
                p.semantics.intent@,
                target_ecosystem@,
                source_library@,
            ));
        }
        let mut i: usize = 0;
        while i < n
            invariant
                i <= n,
                n == self.patterns@.len(),
                spec_get(self.patterns@, source_library@, pattern_name@) == Some(*p),
                direct =~= spec_direct_suggestions(*p, target_ecosystem@),
                direct + spec_equiv_suggestions(
                    self.patterns@,
                    p.semantics.intent@,
                    target_ecosystem@,
                    source_library@,
                ) =~= out@.map_values(|s: TransformationSuggestion| suggestion_model(s))
                    + spec_equiv_suggestions(
                    self.patterns@.skip(i as int),
                    p.semantics.intent@,
                    target_ecosystem@,
                    source_library@,
                ),
            decreases n - i,
        {
            proof {
                assert(self.patterns@.skip(i as int)[0] == self.patterns@[i as int]);
                assert(self.patterns@.skip(i as int).drop_first() =~= self.patterns@.skip(i + 1));
            }
            let q = &self.patterns[i];
            if str_eq(q.semantics.intent.as_str(), p.semantics.intent.as_str()) && str_eq(
                q.ecosystem.as_str(),
                target_ecosystem,
            ) && !str_eq(q.library.as_str(), source_library) {
                let mut description = String::from_str("Semantic equivalent: ");
                description.append(q.name.as_str());
                let ghost pre = out@.map_values(
                    |s: TransformationSuggestion| suggestion_model(s),
                );
                let sug = TransformationSuggestion {
                    confidence: EQUIVALENT_CONFIDENCE,
                    suggestion_type: SuggestionType::SemanticEquivalent,
                    target_library: q.library.clone(),
                    target_pattern: q.name.clone(),
                    description,
                };
                proof {
                    assert(out@.push(sug).map_values(
                        |s: TransformationSuggestion| suggestion_model(s),
                    ) =~= pre.push(suggestion_model(sug)));
                    assert(pre.push(suggestion_model(sug)) + spec_equiv_suggestions(
                        self.patterns@.skip(i + 1),
                        p.semantics.intent@,
                        target_ecosystem@,
                        source_library@,
                    ) =~= pre + (seq![suggestion_model(sug)] + spec_equiv_suggestions(
                        self.patterns@.skip(i + 1),
                        p.semantics.intent@,
                        target_ecosystem@,
                        source_library@,
                    )));
                }
                out.push(sug);
            }
            i += 1;
        }
        proof {
            assert(self.patterns@.skip(n as int).len() == 0);
            assert(out@.map_values(|s: TransformationSuggestion| suggestion_model(s))
                + spec_equiv_suggestions(
                self.patterns@.skip(n as int),
                p.semantics.intent@,
                target_ecosystem@,
                source_library@,
            ) =~= out@.map_values(|s: TransformationSuggestion| suggestion_model(s)));
        }
        out
    }
}

/// The shape of the built-in ecosystem mappings: which ecosystems each
/// built-in library's idioms are known to be portable to.
pub open spec fn ecosystem_mappings_shape(v: Seq<(String, Vec<String>)>) -> bool {
    &&& v.len() == 3
    &&& v[0].0@ == "react"@
    &&& v[0].1.deep_view() =~= seq!["vue"@, "svelte"@, "angular"@, "vanilla"@]
    &&& v[1].0@ == "django"@
    &&& v[1].1.deep_view() =~= seq!["sqlalchemy"@, "fastapi"@, "flask"@]
    &&& v[2].0@ == "socket"@
    &&& v[2].1.deep_view() =~= seq!["rust"@, "go"@, "python"@, "javascript"@]
}

/// The keys of the built-in patterns are pairwise distinct.
proof fn lemma_builtin_keys_distinct()
    ensures
        "useState"@ != "useEffect"@,
        "react"@ != "django"@,
        "react"@ != "socket"@,
        "django"@ != "socket"@,
        "Model"@ != "CharField"@,
{
    reveal_strlit("useState");
    reveal_strlit("useEffect");
    reveal_strlit("react");
    reveal_strlit("django");
    reveal_strlit("socket");
    reveal_strlit("Model");
    reveal_strlit("CharField");
    assert("useState"@.len() == 8);
    assert("useEffect"@.len() == 9);
    assert("react"@.len() == 5);
    assert("django"@.len() == 6);
    assert("socket"@.len() == 6);
    assert("django"@[0] == 'd');
    assert("socket"@[0] == 's');
    assert("Model"@.len() == 5);
    assert("CharField"@.len() == 9);
}

impl LibraryRegistry {
    /// Records the built-in ecosystem mappings.
    fn register_ecosystem_mappings(&mut self)
        ensures
            final(self).patterns == old(self).patterns,
            final(self).ecosystems@.len() == old(self).ecosystems@.len() + 3,
            final(self).ecosystems@.subrange(0, old(self).ecosystems@.len() as int) == old(
                self,
            ).ecosystems@,
            ecosystem_mappings_shape(
                final(self).ecosystems@.skip(old(self).ecosystems@.len() as int),
            ),
    {
        let mut react_targets: Vec<String> = Vec::new();
        react_targets.push(String::from_str("vue"));
        react_targets.push(String::from_str("svelte"));
        react_targets.push(String::from_str("angular"));
        react_targets.push(String::from_str("vanilla"));
        proof {
            assert(react_targets.deep_view() =~= seq!["vue"@, "svelte"@, "angular"@, "vanilla"@]);
        }
        let mut django_targets: Vec<String> = Vec::new();
        django_targets.push(String::from_str("sqlalchemy"));
        django_targets.push(String::from_str("fastapi"));
        django_targets.push(String::from_str("flask"));
        proof {
            assert(django_targets.deep_view() =~= seq!["sqlalchemy"@, "fastapi"@, "flask"@]);
        }
        let mut socket_targets: Vec<String> = Vec::new();
        socket_targets.push(String::from_str("rust"));
        socket_targets.push(String::from_str("go"));
        socket_targets.push(String::from_str("python"));
        socket_targets.push(String::from_str("javascript"));
        proof {
            assert(socket_targets.deep_view() =~= seq!["rust"@, "go"@, "python"@, "javascript"@]);
        }
        let ghost pre = self.ecosystems@;
        self.ecosystems.push((String::from_str("react"), react_targets));
        self.ecosystems.push((String::from_str("django"), django_targets));
        self.ecosystems.push((String::from_str("socket"), socket_targets));
        proof {
            assert(self.ecosystems@.subrange(0, pre.len() as int) =~= pre);
            assert(ecosystem_mappings_shape(self.ecosystems@.skip(pre.len() as int)));
        }
    }

    /// Registers the built-in pattern tables and ecosystem mappings. On an
    /// empty registry this yields exactly the built-in patterns, in table
    /// order.
    pub fn register_defaults(&mut self) -> (r: Result<(), CoalesceError>)
        ensures
            r is Ok,
            old(self).patterns@.len() == 0 && old(self).ecosystems@.len() == 0 ==> {
                &&& final(self).patterns@.len() == 5
                &&& react_patterns_shape(final(self).patterns@.subrange(0, 2))
                &&& django_patterns_shape(final(self).patterns@.subrange(2, 4))
                &&& networking_patterns_shape(final(self).patterns@.subrange(4, 5))
                &&& ecosystem_mappings_shape(final(self).ecosystems@)
            },
    {
        let ghost empty_start = self.patterns@.len() == 0 && self.ecosystems@.len() == 0;
        let ghost p0 = self.patterns@;
        let mut react = crate::patterns::PatternLibrary::react_patterns();
        let use_effect = react.remove(1);
        let use_state = react.remove(0);
        let ghost g_state = use_state;
        let ghost g_effect = use_effect;
        let res = self.register_pattern(use_state);
        if res.is_err() {
            return res;
        }
        let res = self.register_pattern(use_effect);
        if res.is_err() {
            return res;
        }
        let mut django = crate::patterns::PatternLibrary::django_patterns();
        let char_field = django.remove(1);
        let model = django.remove(0);
        let ghost g_model = model;
        let ghost g_field = char_field;
        let res = self.register_pattern(model);
        if res.is_err() {
            return res;
        }
        let res = self.register_pattern(char_field);
        if res.is_err() {
            return res;
        }
        let mut networking = crate::patterns::PatternLibrary::networking_patterns();
        let socket_pattern = networking.remove(0);
        let ghost g_socket = socket_pattern;
        let res = self.register_pattern(socket_pattern);
        if res.is_err() {
            return res;
        }
        proof {
            if empty_start {
                lemma_builtin_keys_distinct();
                let s0 = Seq::<LibraryPattern>::empty();
                assert(p0 =~= s0);
                assert(spec_pat_index(s0, g_state.library@, g_state.name@) is None);
                let s1 = s0.push(g_state);
                assert(forall|j: int|
                    0 <= j < s1.len() ==> !((#[trigger] s1[j]).library@ == g_effect.library@
                        && s1[j].name@ == g_effect.name@));
                lemma_pat_index_none(s1, g_effect.library@, g_effect.name@);
                let s2 = s1.push(g_effect);
                assert(forall|j: int|
                    0 <= j < s2.len() ==> !((#[trigger] s2[j]).library@ == g_model.library@
                        && s2[j].name@ == g_model.name@));
                lemma_pat_index_none(s2, g_model.library@, g_model.name@);
                let s3 = s2.push(g_model);
                assert(forall|j: int|
                    0 <= j < s3.len() ==> !((#[trigger] s3[j]).library@ == g_field.library@
                        && s3[j].name@ == g_field.name@));
                lemma_pat_index_none(s3, g_field.library@, g_field.name@);
                let s4 = s3.push(g_field);
                assert(forall|j: int|
                    0 <= j < s4.len() ==> !((#[trigger] s4[j]).library@ == g_socket.library@
                        && s4[j].name@ == g_socket.name@));
                lemma_pat_index_none(s4, g_socket.library@, g_socket.name@);
                let s5 = s4.push(g_socket);
                assert(self.patterns@ == s5);
                assert(self.patterns@.subrange(0, 2) =~= seq![g_state, g_effect]);
                assert(self.patterns@.subrange(2, 4) =~= seq![g_model, g_field]);
                assert(self.patterns@.subrange(4, 5) =~= seq![g_socket]);
                assert(react_patterns_shape(self.patterns@.subrange(0, 2)));
                assert(django_patterns_shape(self.patterns@.subrange(2, 4)));
                assert(networking_patterns_shape(self.patterns@.subrange(4, 5)));
            }
        }
        let ghost pats_before = self.patterns@;
        self.register_ecosystem_mappings();
        proof {
            if empty_start {
                assert(self.ecosystems@.skip(0) =~= self.ecosystems@);
            }
        }
        Ok(())
    }
}

impl Default for LibraryRegistry {
    /// A registry with the built-in patterns registered.
    fn default() -> (r: LibraryRegistry)
        ensures
            r.patterns@.len() == 5,
            react_patterns_shape(r.patterns@.subrange(0, 2)),
            django_patterns_shape(r.patterns@.subrange(2, 4)),
            networking_patterns_shape(r.patterns@.subrange(4, 5)),
            ecosystem_mappings_shape(r.ecosystems@),
    {
        let mut registry = LibraryRegistry::new();
        match registry.register_defaults() {
            Ok(_) => {},
            Err(_) => {},
        }
        registry
    }
}

} // verus!
