//! The vocabulary of area kinds and their names on the wire.

use vstd::prelude::*;

use crate::text::same_text;

verus! {

/// The kinds of geographic area that figures are published for.
#[derive(Debug, Clone, Copy, PartialEq, Eq, Structural)]
pub enum AreaType {
    Overview,
    Nation,
    Region,
    NHSRegion,
    UTLA,
    LTLA,
}

impl AreaType {
    /// The name by which the service knows this kind of area.
    pub open spec fn wire_name(self) -> Seq<char> {
        match self {
            AreaType::Overview => "overview"@,
            AreaType::Nation => "nation"@,
            AreaType::Region => "region"@,
            AreaType::NHSRegion => "nhsRegion"@,
            AreaType::UTLA => "utla"@,
            AreaType::LTLA => "ltla"@,
        }
    }

    /// The kind of area that a wire name stands for, if it stands for one.
    pub open spec fn named(text: Seq<char>) -> Option<AreaType> {
        if text == "overview"@ {
            Some(AreaType::Overview)
        } else if text == "nation"@ {
            Some(AreaType::Nation)
        } else if text == "region"@ {
            Some(AreaType::Region)
        } else if text == "nhsRegion"@ {
            Some(AreaType::NHSRegion)
        } else if text == "utla"@ {
            Some(AreaType::UTLA)
        } else if text == "ltla"@ {
            Some(AreaType::LTLA)
        } else {
            None
        }
    }

    /// Gives the wire name of this kind of area.
    pub fn as_str(&self) -> (name: &'static str)
        ensures
            name@ == self.wire_name(),
    {
        match self {
            AreaType::Overview => "overview",
            AreaType::Nation => "nation",
            AreaType::Region => "region",
            AreaType::NHSRegion => "nhsRegion",
            AreaType::UTLA => "utla",
            AreaType::LTLA => "ltla",
        }
    }

    /// Reads a wire name back into the kind of area it stands for; a text that
    /// is none of the six names gives `None`.
    pub fn from_wire(text: &str) -> (kind: Option<AreaType>)
        ensures
            kind == AreaType::named(text@),
    {
        if same_text(text, "overview") {
            Some(AreaType::Overview)
        } else if same_text(text, "nation") {
            Some(AreaType::Nation)
        } else if same_text(text, "region") {
            Some(AreaType::Region)
        } else if same_text(text, "nhsRegion") {
            Some(AreaType::NHSRegion)
        } else if same_text(text, "utla") {
            Some(AreaType::UTLA)
        } else if same_text(text, "ltla") {
            Some(AreaType::LTLA)
        } else {
            None
        }
    }

    /// Every wire name reads back as the kind it was given for, and a text that
    /// reads as a kind is that kind's wire name: the two mappings are inverse
    /// to each other, so no two kinds share a name.
    pub proof fn wire_name_round_trip(kind: AreaType, text: Seq<char>)
        ensures
            AreaType::named(kind.wire_name()) == Some(kind),
            AreaType::named(text) == Some(kind) <==> text == kind.wire_name(),
    {
        reveal_strlit("overview");
        reveal_strlit("nation");
        reveal_strlit("region");
        reveal_strlit("nhsRegion");
        reveal_strlit("utla");
        reveal_strlit("ltla");
        assert("overview"@.len() == 8 && "nhsRegion"@.len() == 9);
        assert("nation"@[0] == 'n' && "region"@[0] == 'r');
        assert("utla"@[0] == 'u' && "ltla"@[0] == 'l');
    }
}

} // verus!
