use vstd::prelude::*;
use crate::regex_bridge::{regex_compiles, LinePattern};
use crate::state::{state_keys_unique, ParserView, WoWVanillaParser};

verus! {

/// The number of line patterns, tried in order:
///  0: DamageHitOrCrit
///  1: DamageHitOrCritSchool
///  2: DamageMiss
///  3: DamageBlockParryEvadeDodgeDeflect
///  4: DamageAbsorbResist
///  5: DamageImmune
///  6: DamageSpellHitOrCrit
///  7: DamageSpellHitOrCritSchool
///  8: DamagePeriodic
///  9: DamageSpellSplit
/// 10: DamageSpellMiss
/// 11: DamageSpellBlockParryEvadeDodgeResistDeflect
/// 12: DamageSpellAbsorb
/// 13: DamageSpellAbsorbSelf
/// 14: DamageReflect
/// 15: DamageProcResist
/// 16: DamageSpellImmune
/// 17: DamageShield
/// 18: HealPeriodic
/// 19: AuraGainHarmfulHelpful
/// 20: AuraFade
/// 21: AuraDispel
/// 22: AuraInterrupt
/// 23: SpellCastPerform
/// 24: SpellCastPerformUnknown
/// 25: UnitDieDestroyed
/// 26: UnitSlayKill
/// 27: Loot
/// 28: ZoneInfo
/// 29: HealHitOrCrit
///
/// They are tried in the order that `kind_at` gives: in the order of their
/// numbers, with the heals right after the damage shields. A hit line of the
/// form `X's Spell hits Y for N.` is taken by the melee hit patterns, which
/// read it as a spell hit where `Spell` is a known spell. The spell name of
/// a heal is the shortest that lets the verb follow, so `critically heals`
/// is read whole.
pub const LINE_KINDS: usize = 30;

/// The kind that is tried at position `i`.
pub open spec fn kind_at(i: int) -> int {
    if i <= 17 {
        i
    } else if i == 18 {
        29
    } else {
        i - 1
    }
}

/// The kind that is tried at position `i`.
pub fn kind_at_exec(i: usize) -> (k: usize)
    requires
        i < LINE_KINDS,
    ensures
        k == kind_at(i as int),
        k < LINE_KINDS,
{
    if i <= 17 {
        i
    } else if i == 18 {
        29
    } else {
        i - 1
    }
}

/// The source of the line pattern of a kind.
pub open spec fn pattern_source(k: int) -> Seq<char> {
    if k == 0 {
        r"([a-zA-Z\s']+) (cr|h)its ([a-zA-Z\s']+) for (\d+)\.\s?(.*)"@
    } else if k == 1 {
        r"([a-zA-Z\s']+) (cr|h)its ([a-zA-Z\s']+) for (\d+) ([a-zA-Z]+) damage\.\s?(.*)"@
    } else if k == 2 {
        r"([a-zA-Z\s']+) misses ([a-zA-Z\s']+)\."@
    } else if k == 3 {
        r"([a-zA-Z\s']+) attacks\. ([a-zA-Z\s']+) (blocks|parries|evades|dodges|deflects)\."@
    } else if k == 4 {
        r"([a-zA-Z\s']+) attacks\. ([a-zA-Z\s']+) (absorbs|resists) all the damage\."@
    } else if k == 5 {
        r"([a-zA-Z\s']+) attacks but ([a-zA-Z\s']+) is immune\."@
    } else if k == 6 {
        r"([a-zA-Z\s']+)\s?'s ([a-zA-Z\s']+) (cr|h)its ([a-zA-Z\s']+) for (\d+)\.\s?(.*)"@
    } else if k == 7 {
        r"([a-zA-Z\s']+)\s?'s ([a-zA-Z\s']+) (cr|h)its ([a-zA-Z\s']+) for (\d+) ([a-zA-Z]+) damage\.\s?(.*)"@
    } else if k == 8 {
        r"([a-zA-Z\s']+) suffers (\d+) ([a-zA-Z]+) damage from ([a-zA-Z\s']+)\s?'s ([a-zA-Z\s']+)\.\s?(.*)"@
    } else if k == 9 {
        r"([a-zA-Z\s']+)\s?'s ([a-zA-Z\s']+) causes ([a-zA-Z\s']+) (\d+) damage\.\s?(.*)"@
    } else if k == 10 {
        r"([a-zA-Z\s']+)\s?'s ([a-zA-Z\s']+) missed ([a-zA-Z\s']+)\."@
    } else if k == 11 {
        r"([a-zA-Z\s']+)\s?'s ([a-zA-Z\s']+) was (blocked|parried|evaded|dodged|resisted|deflected) by ([a-zA-Z\s']+)\."@
    } else if k == 12 {
        r"([a-zA-Z\s']+)\s?'s ([a-zA-Z\s']+) is absorbed by ([a-zA-Z\s']+)\."@
    } else if k == 13 {
        r"([a-zA-Z\s']+) absorbs ([a-zA-Z\s']+)\s?'s ([a-zA-Z\s']+)\."@
    } else if k == 14 {
        r"([a-zA-Z\s']+)\s?'s ([a-zA-Z\s']+) is reflected back by ([a-zA-Z\s']+)\."@
    } else if k == 15 {
        r"([a-zA-Z\s']+) resists ([a-zA-Z\s']+)\s?'s ([a-zA-Z\s']+)\."@
    } else if k == 16 {
        r"([a-zA-Z\s']+)\s?'s ([a-zA-Z\s']+) fails\. ([a-zA-Z\s']+) is immune\."@
    } else if k == 17 {
        r"([a-zA-Z\s']+) reflects (\d+) ([a-zA-Z]+) damage to ([a-zA-Z\s']+)\."@
    } else if k == 18 {
        r"([a-zA-Z\s']+) gains (\d+) health from ([a-zA-Z\s']+)\s?'s ([a-zA-Z\s']+)\."@
    } else if k == 19 {
        r"([a-zA-Z\s']+) (is afflicted by|gains) ([a-zA-Z\s']+) \((\d+)\)\."@
    } else if k == 20 {
        r"([a-zA-Z\s']+) fades from ([a-zA-Z\s']+)\."@
    } else if k == 21 {
        r"([a-zA-Z\s']+)\s?'s ([a-zA-Z\s']+) is removed\."@
    } else if k == 22 {
        r"([a-zA-Z\s']+) interrupts ([a-zA-Z\s']+)\s?'s ([a-zA-Z\s']+)\."@
    } else if k == 23 {
        r"([a-zA-Z\s']+) (casts|performs) ([a-zA-Z\s']+) on ([a-zA-Z\s']+)\."@
    } else if k == 24 {
        r"([a-zA-Z\s']+) (casts|performs) ([a-zA-Z\s']+)\."@
    } else if k == 25 {
        r"([a-zA-Z\s']+) (dies|is destroyed)\."@
    } else if k == 26 {
        r"([a-zA-Z\s']+) is (slain|killed) by ([a-zA-Z\s']+)[!.]"@
    } else if k == 27 {
        r"LOOT: ([a-zA-Z\s']+) receives loot: \|c([a-zA-Z0-9]+)\|Hitem:(\d+):(\d+):(\d+):(\d+)\|h\[([a-zA-Z0-9]+)\]\|h\|rx(\d+)\."@
    } else if k == 28 {
        r"ZONE_INFO: ([a-zA-Z\s']+)\&(\d+)"@
    } else {
        r"([a-zA-Z\s']+)\s?'s ([a-zA-Z\s']+?) (critically heals|heals) ([a-zA-Z\s']+) for (\d+)\."@
    }
}

fn pattern_text(k: usize) -> (s: &'static str)
    requires
        k < LINE_KINDS,
    ensures
        s@ == pattern_source(k as int),
{
    match k {
        0 => r"([a-zA-Z\s']+) (cr|h)its ([a-zA-Z\s']+) for (\d+)\.\s?(.*)",
        1 => r"([a-zA-Z\s']+) (cr|h)its ([a-zA-Z\s']+) for (\d+) ([a-zA-Z]+) damage\.\s?(.*)",
        2 => r"([a-zA-Z\s']+) misses ([a-zA-Z\s']+)\.",
        3 => r"([a-zA-Z\s']+) attacks\. ([a-zA-Z\s']+) (blocks|parries|evades|dodges|deflects)\.",
        4 => r"([a-zA-Z\s']+) attacks\. ([a-zA-Z\s']+) (absorbs|resists) all the damage\.",
        5 => r"([a-zA-Z\s']+) attacks but ([a-zA-Z\s']+) is immune\.",
        6 => r"([a-zA-Z\s']+)\s?'s ([a-zA-Z\s']+) (cr|h)its ([a-zA-Z\s']+) for (\d+)\.\s?(.*)",
        7 => r"([a-zA-Z\s']+)\s?'s ([a-zA-Z\s']+) (cr|h)its ([a-zA-Z\s']+) for (\d+) ([a-zA-Z]+) damage\.\s?(.*)",
        8 => r"([a-zA-Z\s']+) suffers (\d+) ([a-zA-Z]+) damage from ([a-zA-Z\s']+)\s?'s ([a-zA-Z\s']+)\.\s?(.*)",
        9 => r"([a-zA-Z\s']+)\s?'s ([a-zA-Z\s']+) causes ([a-zA-Z\s']+) (\d+) damage\.\s?(.*)",
        10 => r"([a-zA-Z\s']+)\s?'s ([a-zA-Z\s']+) missed ([a-zA-Z\s']+)\.",
        11 => r"([a-zA-Z\s']+)\s?'s ([a-zA-Z\s']+) was (blocked|parried|evaded|dodged|resisted|deflected) by ([a-zA-Z\s']+)\.",
        12 => r"([a-zA-Z\s']+)\s?'s ([a-zA-Z\s']+) is absorbed by ([a-zA-Z\s']+)\.",
        13 => r"([a-zA-Z\s']+) absorbs ([a-zA-Z\s']+)\s?'s ([a-zA-Z\s']+)\.",
        14 => r"([a-zA-Z\s']+)\s?'s ([a-zA-Z\s']+) is reflected back by ([a-zA-Z\s']+)\.",
        15 => r"([a-zA-Z\s']+) resists ([a-zA-Z\s']+)\s?'s ([a-zA-Z\s']+)\.",
        16 => r"([a-zA-Z\s']+)\s?'s ([a-zA-Z\s']+) fails\. ([a-zA-Z\s']+) is immune\.",
        17 => r"([a-zA-Z\s']+) reflects (\d+) ([a-zA-Z]+) damage to ([a-zA-Z\s']+)\.",
        18 => r"([a-zA-Z\s']+) gains (\d+) health from ([a-zA-Z\s']+)\s?'s ([a-zA-Z\s']+)\.",
        19 => r"([a-zA-Z\s']+) (is afflicted by|gains) ([a-zA-Z\s']+) \((\d+)\)\.",
        20 => r"([a-zA-Z\s']+) fades from ([a-zA-Z\s']+)\.",
        21 => r"([a-zA-Z\s']+)\s?'s ([a-zA-Z\s']+) is removed\.",
        22 => r"([a-zA-Z\s']+) interrupts ([a-zA-Z\s']+)\s?'s ([a-zA-Z\s']+)\.",
        23 => r"([a-zA-Z\s']+) (casts|performs) ([a-zA-Z\s']+) on ([a-zA-Z\s']+)\.",
        24 => r"([a-zA-Z\s']+) (casts|performs) ([a-zA-Z\s']+)\.",
        25 => r"([a-zA-Z\s']+) (dies|is destroyed)\.",
        26 => r"([a-zA-Z\s']+) is (slain|killed) by ([a-zA-Z\s']+)[!.]",
        27 => r"LOOT: ([a-zA-Z\s']+) receives loot: \|c([a-zA-Z0-9]+)\|Hitem:(\d+):(\d+):(\d+):(\d+)\|h\[([a-zA-Z0-9]+)\]\|h\|rx(\d+)\.",
        28 => r"ZONE_INFO: ([a-zA-Z\s']+)\&(\d+)",
        _ => r"([a-zA-Z\s']+)\s?'s ([a-zA-Z\s']+?) (critically heals|heals) ([a-zA-Z\s']+) for (\d+)\.",
    }
}

/// Every line pattern of the regex crate is accepted.
pub open spec fn all_patterns_compile() -> bool {
    forall|k: int| 0 <= k < LINE_KINDS ==> regex_compiles(#[trigger] pattern_source(k))
}

/// A parser that knows nothing yet.
pub open spec fn empty_parser(server_id: u32) -> ParserView {
    ParserView {
        server_id,
        participants: Seq::empty(),
        active_map: Seq::empty(),
        pet_owner: Seq::empty(),
    }
}

impl WoWVanillaParser {
    /// The parser holds the compiled line patterns, in order, and knows each
    /// participant, map and pet once.
    pub open spec fn wf(&self) -> bool {
        &&& self.patterns@.len() == LINE_KINDS
        &&& forall|k: int| 0 <= k < LINE_KINDS ==> (#[trigger] self.patterns@[k]).source() == pattern_source(k)
        &&& state_keys_unique(self@)
    }

    /// A parser for the log of a server; `None` where the regex crate refuses
    /// one of the line patterns.
    pub fn new(server_id: u32) -> (r: Option<WoWVanillaParser>)
        ensures
            r is Some <==> all_patterns_compile(),
            r matches Some(p) ==> p.wf() && p@ == empty_parser(server_id),
    {
        let mut patterns: Vec<LinePattern> = Vec::new();
        let mut k: usize = 0;
        while k < LINE_KINDS
            invariant
                k <= LINE_KINDS,
                patterns@.len() == k,
                forall|j: int| 0 <= j < k ==> (#[trigger] patterns@[j]).source() == pattern_source(j),
                forall|j: int| 0 <= j < k ==> regex_compiles(#[trigger] pattern_source(j)),
            decreases LINE_KINDS - k,
        {
            match LinePattern::new(pattern_text(k)) {
                Some(p) => patterns.push(p),
                None => return None,
            }
            k = k + 1;
        }
        let r = WoWVanillaParser {
            server_id,
            participants: Vec::new(),
            active_map: Vec::new(),
            pet_owner: Vec::new(),
            patterns,
        };
        assert(r@.participants =~= Seq::empty());
        Some(r)
    }
}

} // verus!
