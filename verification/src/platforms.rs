//! The stores and launchers that a game id can come from.

use vstd::prelude::*;

verus! {

/// Game platforms/stores
#[derive(Debug, Clone, Hash, PartialEq, Eq, PartialOrd, Ord)]
pub enum Platform {
    /// steam
    Steam,
    /// origin
    Origin,
    /// egs
    EpicGameStore,
    /// bnet
    BattleNet,
    /// uplay
    Uplay,
    /// flashpoint
    Flashpoint,
    /// gog
    GoG,
}

impl Platform {
    /// The name of this platform in a request path.
    pub open spec fn wire_name(&self) -> Seq<char> {
        match self {
            Platform::Steam => "steam"@,
            Platform::Origin => "origin"@,
            Platform::EpicGameStore => "egs"@,
            Platform::BattleNet => "bnet"@,
            Platform::Uplay => "uplay"@,
            Platform::GoG => "gog"@,
            Platform::Flashpoint => "flashpoint"@,
        }
    }

    /// Writes the name of this platform as the service spells it.
    pub fn to_string(&self) -> (s: String)
        ensures
            s@ == self.wire_name(),
    {
        let name: &str = match self {
            Platform::Steam => "steam",
            Platform::Origin => "origin",
            Platform::EpicGameStore => "egs",
            Platform::BattleNet => "bnet",
            Platform::Uplay => "uplay",
            Platform::GoG => "gog",
            Platform::Flashpoint => "flashpoint",
        };
        name.to_owned()
    }
}

/// Two platforms with the same name are the same platform.
pub proof fn lemma_platform_injective(a: Platform, b: Platform)
    requires
        a.wire_name() == b.wire_name(),
    ensures
        a == b,
{
    reveal_strlit("steam");
    reveal_strlit("origin");
    reveal_strlit("egs");
    reveal_strlit("bnet");
    reveal_strlit("uplay");
    reveal_strlit("gog");
    reveal_strlit("flashpoint");
    let (s, t) = (a.wire_name(), b.wire_name());
    assert(s.len() == t.len());
    assert(s[0] == t[0]);
}

} // verus!
