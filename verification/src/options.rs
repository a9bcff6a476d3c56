//! The closed vocabularies that tool callers choose from, and the words each
//! choice becomes on the `gitquarry` command line.

use vstd::prelude::*;

verus! {
/// How `gitquarry search` retrieves candidates.
#[derive(Debug, Clone, Copy, PartialEq, Eq, Structural)]
pub enum RetrievalMode {
    Native,
    Discover,
}

impl RetrievalMode {
    /// The command-line word for an optional choice.
    pub open spec fn option_text(o: Option<RetrievalMode>) -> Option<Seq<char>> {
        match o {
            Some(v) => Some(v.text()),
            None => None,
        }
    }

    /// The command-line word for this choice.
    pub open spec fn text(self) -> Seq<char> {
        match self {
            RetrievalMode::Native => "native"@,
            RetrievalMode::Discover => "discover"@,
        }
    }

    /// The command-line word for this choice.
    pub fn as_str(self) -> (r: &'static str)
        ensures
            r@ == self.text(),
    {
        match self {
            RetrievalMode::Native => "native",
            RetrievalMode::Discover => "discover",
        }
    }
}

/// How `gitquarry search` ranks results. Non-native ranks need discover mode upstream.
#[derive(Debug, Clone, Copy, PartialEq, Eq, Structural)]
pub enum RankMode {
    Native,
    Query,
    Activity,
    Quality,
    Blended,
}

impl RankMode {
    /// The command-line word for an optional choice.
    pub open spec fn option_text(o: Option<RankMode>) -> Option<Seq<char>> {
        match o {
            Some(v) => Some(v.text()),
            None => None,
        }
    }

    /// The command-line word for this choice.
    pub open spec fn text(self) -> Seq<char> {
        match self {
            RankMode::Native => "native"@,
            RankMode::Query => "query"@,
            RankMode::Activity => "activity"@,
            RankMode::Quality => "quality"@,
            RankMode::Blended => "blended"@,
        }
    }

    /// The command-line word for this choice.
    pub fn as_str(self) -> (r: &'static str)
        ensures
            r@ == self.text(),
    {
        match self {
            RankMode::Native => "native",
            RankMode::Query => "query",
            RankMode::Activity => "activity",
            RankMode::Quality => "quality",
            RankMode::Blended => "blended",
        }
    }
}

/// The GitHub-like sort order of native search.
#[derive(Debug, Clone, Copy, PartialEq, Eq, Structural)]
pub enum SearchSort {
    BestMatch,
    Stars,
    Updated,
}

impl SearchSort {
    /// The command-line word for an optional choice.
    pub open spec fn option_text(o: Option<SearchSort>) -> Option<Seq<char>> {
        match o {
            Some(v) => Some(v.text()),
            None => None,
        }
    }

    /// The command-line word for this choice.
    pub open spec fn text(self) -> Seq<char> {
        match self {
            SearchSort::BestMatch => "best-match"@,
            SearchSort::Stars => "stars"@,
            SearchSort::Updated => "updated"@,
        }
    }

    /// The command-line word for this choice.
    pub fn as_str(self) -> (r: &'static str)
        ensures
            r@ == self.text(),
    {
        match self {
            SearchSort::BestMatch => "best-match",
            SearchSort::Stars => "stars",
            SearchSort::Updated => "updated",
        }
    }
}

/// How deep discover mode looks.
#[derive(Debug, Clone, Copy, PartialEq, Eq, Structural)]
pub enum DiscoveryDepth {
    Quick,
    Balanced,
    Deep,
}

impl DiscoveryDepth {
    /// The command-line word for an optional choice.
    pub open spec fn option_text(o: Option<DiscoveryDepth>) -> Option<Seq<char>> {
        match o {
            Some(v) => Some(v.text()),
            None => None,
        }
    }

    /// The command-line word for this choice.
    pub open spec fn text(self) -> Seq<char> {
        match self {
            DiscoveryDepth::Quick => "quick"@,
            DiscoveryDepth::Balanced => "balanced"@,
            DiscoveryDepth::Deep => "deep"@,
        }
    }

    /// The command-line word for this choice.
    pub fn as_str(self) -> (r: &'static str)
        ensures
            r@ == self.text(),
    {
        match self {
            DiscoveryDepth::Quick => "quick",
            DiscoveryDepth::Balanced => "balanced",
            DiscoveryDepth::Deep => "deep",
        }
    }
}

/// A yes/no repository filter, spelled out as a word.
#[derive(Debug, Clone, Copy, PartialEq, Eq, Structural)]
pub enum BoolFlag {
    True,
    False,
}

impl BoolFlag {
    /// The command-line word for an optional choice.
    pub open spec fn option_text(o: Option<BoolFlag>) -> Option<Seq<char>> {
        match o {
            Some(v) => Some(v.text()),
            None => None,
        }
    }

    /// The command-line word for this choice.
    pub open spec fn text(self) -> Seq<char> {
        match self {
            BoolFlag::True => "true"@,
            BoolFlag::False => "false"@,
        }
    }

    /// The command-line word for this choice.
    pub fn as_str(self) -> (r: &'static str)
        ensures
            r@ == self.text(),
    {
        match self {
            BoolFlag::True => "true",
            BoolFlag::False => "false",
        }
    }
}

/// Whether forks are excluded, included, or the only results.
#[derive(Debug, Clone, Copy, PartialEq, Eq, Structural)]
pub enum ForkMode {
    False,
    True,
    Only,
}

impl ForkMode {
    /// The command-line word for an optional choice.
    pub open spec fn option_text(o: Option<ForkMode>) -> Option<Seq<char>> {
        match o {
            Some(v) => Some(v.text()),
            None => None,
        }
    }

    /// The command-line word for this choice.
    pub open spec fn text(self) -> Seq<char> {
        match self {
            ForkMode::False => "false"@,
            ForkMode::True => "true"@,
            ForkMode::Only => "only"@,
        }
    }

    /// The command-line word for this choice.
    pub fn as_str(self) -> (r: &'static str)
        ensures
            r@ == self.text(),
    {
        match self {
            ForkMode::False => "false",
            ForkMode::True => "true",
            ForkMode::Only => "only",
        }
    }
}

/// How `gitquarry code` reads its pattern.
#[derive(Debug, Clone, Copy, PartialEq, Eq, Structural)]
pub enum PatternMode {
    Literal,
    Regex,
}

impl PatternMode {
    /// The command-line word for an optional choice.
    pub open spec fn option_text(o: Option<PatternMode>) -> Option<Seq<char>> {
        match o {
            Some(v) => Some(v.text()),
            None => None,
        }
    }

    /// The command-line word for this choice.
    pub open spec fn text(self) -> Seq<char> {
        match self {
            PatternMode::Literal => "literal"@,
            PatternMode::Regex => "regex"@,
        }
    }

    /// The command-line word for this choice.
    pub fn as_str(self) -> (r: &'static str)
        ensures
            r@ == self.text(),
    {
        match self {
            PatternMode::Literal => "literal",
            PatternMode::Regex => "regex",
        }
    }
}

} // verus!
