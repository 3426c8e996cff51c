//! Classification of one-byte command action codes into named categories.
//!
//! Every possible code classifies into exactly one `Category`: either one of
//! the known, statically enumerated variants, or the fallback `Unknown`
//! variant, which carries the unmatched code verbatim.

use vstd::prelude::*;

verus! {

/// The human-readable classification of a command's one-byte action code.
///
/// The known variants form a closed, ordered enumeration; `Unknown` is the
/// fallback for every code that matches no known variant and records that
/// code itself.
#[derive(Clone, Copy, Debug, PartialEq, Eq, Structural)]
pub enum Category {
    Move,
    Stop,
    Attack,
    AttackMove,
    Capture,
    BuildStructure,
    ReinforceUnit,
    Upgrade,
    Ability,
    Retreat,
    BuildSquad,
    CancelProduction,
    Unknown(u8),
}

/// The byte code a category stands for; the fallback carries its own code.
pub open spec fn spec_code_of(c: Category) -> u8 {
    match c {
        Category::Move => 62,
        Category::Stop => 63,
        Category::Attack => 67,
        Category::AttackMove => 71,
        Category::Capture => 66,
        Category::BuildStructure => 65,
        Category::ReinforceUnit => 68,
        Category::Upgrade => 69,
        Category::Ability => 72,
        Category::Retreat => 78,
        Category::BuildSquad => 3,
        Category::CancelProduction => 5,
        Category::Unknown(code) => code,
    }
}

/// Whether a category is one of the known variants (not the fallback).
pub open spec fn spec_is_known(c: Category) -> bool {
    !(c is Unknown)
}

/// The total classification: the known variant whose code matches, else the
/// fallback carrying the code verbatim.
pub open spec fn spec_classify(code: u8) -> Category {
    if code == 62 {
        Category::Move
    } else if code == 63 {
        Category::Stop
    } else if code == 67 {
        Category::Attack
    } else if code == 71 {
        Category::AttackMove
    } else if code == 66 {
        Category::Capture
    } else if code == 65 {
        Category::BuildStructure
    } else if code == 68 {
        Category::ReinforceUnit
    } else if code == 69 {
        Category::Upgrade
    } else if code == 72 {
        Category::Ability
    } else if code == 78 {
        Category::Retreat
    } else if code == 3 {
        Category::BuildSquad
    } else if code == 5 {
        Category::CancelProduction
    } else {
        Category::Unknown(code)
    }
}

/// The display name of a category, as a sequence of characters.
pub open spec fn spec_name_of(c: Category) -> Seq<char> {
    match c {
        Category::Move => "Move"@,
        Category::Stop => "Stop"@,
        Category::Attack => "Attack"@,
        Category::AttackMove => "AttackMove"@,
        Category::Capture => "Capture"@,
        Category::BuildStructure => "BuildStructure"@,
        Category::ReinforceUnit => "ReinforceUnit"@,
        Category::Upgrade => "Upgrade"@,
        Category::Ability => "Ability"@,
        Category::Retreat => "Retreat"@,
        Category::BuildSquad => "BuildSquad"@,
        Category::CancelProduction => "CancelProduction"@,
        Category::Unknown(_) => "Unknown"@,
    }
}

/// The known categories in their fixed enumeration order, which is also the
/// presentation order of any selection UI.
pub open spec fn spec_categories() -> Seq<Category> {
    seq![
        Category::Move,
        Category::Stop,
        Category::Attack,
        Category::AttackMove,
        Category::Capture,
        Category::BuildStructure,
        Category::ReinforceUnit,
        Category::Upgrade,
        Category::Ability,
        Category::Retreat,
        Category::BuildSquad,
        Category::CancelProduction,
    ]
}

impl Category {
    /// The byte code associated with this category.
    pub fn code_of(self) -> (code: u8)
        ensures
            code == spec_code_of(self),
    {
        match self {
            Category::Move => 62,
            Category::Stop => 63,
            Category::Attack => 67,
            Category::AttackMove => 71,
            Category::Capture => 66,
            Category::BuildStructure => 65,
            Category::ReinforceUnit => 68,
            Category::Upgrade => 69,
            Category::Ability => 72,
            Category::Retreat => 78,
            Category::BuildSquad => 3,
            Category::CancelProduction => 5,
            Category::Unknown(code) => code,
        }
    }

    /// The display name of this category; never empty.
    pub fn name_of(self) -> (name: String)
        ensures
            name@ == spec_name_of(self),
            name@.len() > 0,
    {
        proof {
            lemma_names_short();
            assert(spec_name_of(self).len() > 0);
        }
        match self {
            Category::Move => "Move".to_owned(),
            Category::Stop => "Stop".to_owned(),
            Category::Attack => "Attack".to_owned(),
            Category::AttackMove => "AttackMove".to_owned(),
            Category::Capture => "Capture".to_owned(),
            Category::BuildStructure => "BuildStructure".to_owned(),
            Category::ReinforceUnit => "ReinforceUnit".to_owned(),
            Category::Upgrade => "Upgrade".to_owned(),
            Category::Ability => "Ability".to_owned(),
            Category::Retreat => "Retreat".to_owned(),
            Category::BuildSquad => "BuildSquad".to_owned(),
            Category::CancelProduction => "CancelProduction".to_owned(),
            Category::Unknown(_) => "Unknown".to_owned(),
        }
    }

    /// The number of characters in this category's display name.
    pub fn name_len(self) -> (n: usize)
        ensures
            n == spec_name_of(self).len(),
    {
        proof {
            reveal_strlit("Move");
            reveal_strlit("Stop");
            reveal_strlit("Attack");
            reveal_strlit("AttackMove");
            reveal_strlit("Capture");
            reveal_strlit("BuildStructure");
            reveal_strlit("ReinforceUnit");
            reveal_strlit("Upgrade");
            reveal_strlit("Ability");
            reveal_strlit("Retreat");
            reveal_strlit("BuildSquad");
            reveal_strlit("CancelProduction");
            reveal_strlit("Unknown");
        }
        match self {
            Category::Move => 4,
            Category::Stop => 4,
            Category::Attack => 6,
            Category::AttackMove => 10,
            Category::Capture => 7,
            Category::BuildStructure => 14,
            Category::ReinforceUnit => 13,
            Category::Upgrade => 7,
            Category::Ability => 7,
            Category::Retreat => 7,
            Category::BuildSquad => 10,
            Category::CancelProduction => 16,
            Category::Unknown(_) => 7,
        }
    }
}

/// The total classification of a byte code into its category.
pub fn classify(code: u8) -> (c: Category)
    ensures
        c == spec_classify(code),
{
    match code {
        62 => Category::Move,
        63 => Category::Stop,
        67 => Category::Attack,
        71 => Category::AttackMove,
        66 => Category::Capture,
        65 => Category::BuildStructure,
        68 => Category::ReinforceUnit,
        69 => Category::Upgrade,
        72 => Category::Ability,
        78 => Category::Retreat,
        3 => Category::BuildSquad,
        5 => Category::CancelProduction,
        _ => Category::Unknown(code),
    }
}

/// The known categories, in their fixed enumeration order. The fallback is
/// not user-selectable and is excluded.
pub fn categories() -> (cats: Vec<Category>)
    ensures
        cats@ == spec_categories(),
{
    let cats: Vec<Category> = vec![
        Category::Move,
        Category::Stop,
        Category::Attack,
        Category::AttackMove,
        Category::Capture,
        Category::BuildStructure,
        Category::ReinforceUnit,
        Category::Upgrade,
        Category::Ability,
        Category::Retreat,
        Category::BuildSquad,
        Category::CancelProduction,
    ];
    proof {
        assert(cats@ =~= spec_categories());
    }
    cats
}

/// Every display name is non-empty and strictly shorter than the renderer's
/// 35-character name column.
pub proof fn lemma_names_short()
    ensures
        forall|c: Category| 0 < (#[trigger] spec_name_of(c)).len() < 35,
{
    reveal_strlit("Move");
    reveal_strlit("Stop");
    reveal_strlit("Attack");
    reveal_strlit("AttackMove");
    reveal_strlit("Capture");
    reveal_strlit("BuildStructure");
    reveal_strlit("ReinforceUnit");
    reveal_strlit("Upgrade");
    reveal_strlit("Ability");
    reveal_strlit("Retreat");
    reveal_strlit("BuildSquad");
    reveal_strlit("CancelProduction");
    reveal_strlit("Unknown");
    assert forall|c: Category| 0 < (#[trigger] spec_name_of(c)).len() < 35 by {
        match c {
            Category::Move => {},
            Category::Stop => {},
            Category::Attack => {},
            Category::AttackMove => {},
            Category::Capture => {},
            Category::BuildStructure => {},
            Category::ReinforceUnit => {},
            Category::Upgrade => {},
            Category::Ability => {},
            Category::Retreat => {},
            Category::BuildSquad => {},
            Category::CancelProduction => {},
            Category::Unknown(_) => {},
        }
    }
}

/// Totality and round-trip: every byte code classifies into exactly one
/// category, and that category's code is the code itself.
pub proof fn lemma_classify_code_round_trip(code: u8)
    ensures
        spec_code_of(spec_classify(code)) == code,
{
}

/// Round-trip for known categories: classifying a known category's code
/// yields that category back, so no two known variants share a code.
pub proof fn lemma_known_code_round_trip(c: Category)
    requires
        spec_is_known(c),
    ensures
        spec_classify(spec_code_of(c)) == c,
{
}

/// No two known variants share a code: the known mapping is a bijection on
/// its domain.
pub proof fn lemma_known_codes_injective(a: Category, b: Category)
    requires
        spec_is_known(a),
        spec_is_known(b),
        spec_code_of(a) == spec_code_of(b),
    ensures
        a == b,
{
    lemma_known_code_round_trip(a);
    lemma_known_code_round_trip(b);
}

} // verus!
