//! The closed enumeration of risk categories, and the presence map that a case
//! stores: one flag for every category, set for the categories asserted.

use vstd::prelude::*;
use vstd::seq_lib::lemma_seq_contains_after_push;

verus! {

/// How many categories there are.
pub const CATEGORY_COUNT: usize = 20;

/// A risk category. The declaration order is the order of the ordinals and of
/// the entries of a stored presence map.
#[derive(Clone, Copy, Debug, PartialEq, Eq, PartialOrd, Ord, Hash)]
pub enum Category {
    Safe,
    WalletService,
    MerchantService,
    MiningPool,
    LowRiskExchange,
    MediumRiskExchange,
    DeFi,
    OTCBroker,
    ATM,
    Gambling,
    IllicitOrganization,
    Mixer,
    DarknetService,
    Scam,
    Ransomware,
    Theft,
    Counterfeit,
    TerroristFinancing,
    Sanctions,
    ChildAbuse,
}

impl Category {
    /// The ordinal of the category: its place in the enumeration, from 0.
    pub open spec fn index(self) -> int {
        match self {
            Category::Safe => 0,
            Category::WalletService => 1,
            Category::MerchantService => 2,
            Category::MiningPool => 3,
            Category::LowRiskExchange => 4,
            Category::MediumRiskExchange => 5,
            Category::DeFi => 6,
            Category::OTCBroker => 7,
            Category::ATM => 8,
            Category::Gambling => 9,
            Category::IllicitOrganization => 10,
            Category::Mixer => 11,
            Category::DarknetService => 12,
            Category::Scam => 13,
            Category::Ransomware => 14,
            Category::Theft => 15,
            Category::Counterfeit => 16,
            Category::TerroristFinancing => 17,
            Category::Sanctions => 18,
            Category::ChildAbuse => 19,
        }
    }

    /// The category with the given ordinal, if there is one.
    pub open spec fn at(index: int) -> Option<Category> {
        if index == 0 {
            Some(Category::Safe)
        } else if index == 1 {
            Some(Category::WalletService)
        } else if index == 2 {
            Some(Category::MerchantService)
        } else if index == 3 {
            Some(Category::MiningPool)
        } else if index == 4 {
            Some(Category::LowRiskExchange)
        } else if index == 5 {
            Some(Category::MediumRiskExchange)
        } else if index == 6 {
            Some(Category::DeFi)
        } else if index == 7 {
            Some(Category::OTCBroker)
        } else if index == 8 {
            Some(Category::ATM)
        } else if index == 9 {
            Some(Category::Gambling)
        } else if index == 10 {
            Some(Category::IllicitOrganization)
        } else if index == 11 {
            Some(Category::Mixer)
        } else if index == 12 {
            Some(Category::DarknetService)
        } else if index == 13 {
            Some(Category::Scam)
        } else if index == 14 {
            Some(Category::Ransomware)
        } else if index == 15 {
            Some(Category::Theft)
        } else if index == 16 {
            Some(Category::Counterfeit)
        } else if index == 17 {
            Some(Category::TerroristFinancing)
        } else if index == 18 {
            Some(Category::Sanctions)
        } else if index == 19 {
            Some(Category::ChildAbuse)
        } else {
            None
        }
    }

    pub fn ordinal(&self) -> (ordinal: u8)
        ensures
            ordinal == self.index(),
            ordinal < CATEGORY_COUNT,
    {
        match self {
            Category::Safe => 0,
            Category::WalletService => 1,
            Category::MerchantService => 2,
            Category::MiningPool => 3,
            Category::LowRiskExchange => 4,
            Category::MediumRiskExchange => 5,
            Category::DeFi => 6,
            Category::OTCBroker => 7,
            Category::ATM => 8,
            Category::Gambling => 9,
            Category::IllicitOrganization => 10,
            Category::Mixer => 11,
            Category::DarknetService => 12,
            Category::Scam => 13,
            Category::Ransomware => 14,
            Category::Theft => 15,
            Category::Counterfeit => 16,
            Category::TerroristFinancing => 17,
            Category::Sanctions => 18,
            Category::ChildAbuse => 19,
        }
    }

    pub fn from_ordinal(ordinal: u8) -> (category: Option<Category>)
        ensures
            category == Category::at(ordinal as int),
    {
        match ordinal {
            0 => Some(Category::Safe),
            1 => Some(Category::WalletService),
            2 => Some(Category::MerchantService),
            3 => Some(Category::MiningPool),
            4 => Some(Category::LowRiskExchange),
            5 => Some(Category::MediumRiskExchange),
            6 => Some(Category::DeFi),
            7 => Some(Category::OTCBroker),
            8 => Some(Category::ATM),
            9 => Some(Category::Gambling),
            10 => Some(Category::IllicitOrganization),
            11 => Some(Category::Mixer),
            12 => Some(Category::DarknetService),
            13 => Some(Category::Scam),
            14 => Some(Category::Ransomware),
            15 => Some(Category::Theft),
            16 => Some(Category::Counterfeit),
            17 => Some(Category::TerroristFinancing),
            18 => Some(Category::Sanctions),
            19 => Some(Category::ChildAbuse),
            _ => None,
        }
    }

    /// Ordinals and categories correspond one to one: every category has an
    /// ordinal below the count, and every such ordinal names its category.
    pub proof fn lemma_ordinals(index: int)
        ensures
            forall|c: Category| 0 <= #[trigger] c.index() < CATEGORY_COUNT,
            forall|c: Category| Category::at(#[trigger] c.index()) == Some(c),
            0 <= index < CATEGORY_COUNT ==> Category::at(index) is Some && Category::at(
                index,
            )->0.index() == index,
            !(0 <= index < CATEGORY_COUNT) ==> Category::at(index) is None,
    {
    }
}

/// The presence map of a case: a flag for every category, never a missing
/// entry. The flag at an ordinal belongs to the category with that ordinal.
#[derive(Clone, Copy, Debug, PartialEq, Eq)]
pub struct CategoryMap {
    pub flags: [bool; 20],
}

impl View for CategoryMap {
    type V = Map<Category, bool>;

    open spec fn view(&self) -> Map<Category, bool> {
        Map::total(|c: Category| self.flags[c.index()])
    }
}

/// The presence map of a set of categories: every category is a key, and its
/// flag says whether the set holds it.
pub open spec fn encoded(set: Set<Category>) -> Map<Category, bool> {
    Map::total(|c: Category| set.contains(c))
}

/// The set of categories that a presence map asserts.
pub open spec fn decoded(map: Map<Category, bool>) -> Set<Category> {
    Set::new(|c: Category| map[c])
}

/// The entries of a presence map in storage order: each ordinal with its flag.
pub open spec fn map_entries(map: Map<Category, bool>) -> Seq<(u8, bool)> {
    Seq::new(
        CATEGORY_COUNT as nat,
        |i: int| (i as u8, Category::at(i) matches Some(c) && map[c]),
    )
}

impl CategoryMap {
    /// The map with every category present and every flag `false`.
    pub fn new() -> (map: CategoryMap)
        ensures
            map@ == encoded(Set::empty()),
    {
        let map = CategoryMap { flags: [false;20] };
        assert(map@ =~= encoded(Set::empty()));
        map
    }

    /// Builds the presence map of `categories`. Only membership counts: the
    /// order of the slice and repeated entries make no difference.
    pub fn encode(categories: &[Category]) -> (map: CategoryMap)
        ensures
            map@ == encoded(categories@.to_set()),
    {
        let mut flags = [false;20];
        let mut i: usize = 0;
        while i < categories.len()
            invariant
                i <= categories.len(),
                forall|c: Category| #[trigger]
                    flags[c.index()] == categories@.take(i as int).contains(c),
            decreases categories.len() - i,
        {
            let category = categories[i];
            let ordinal = category.ordinal();
            flags[ordinal as usize] = true;
            proof {
                let before = categories@.take(i as int);
                assert(categories@.take(i + 1) =~= before.push(category));
                assert forall|c: Category| #[trigger]
                    flags[c.index()] == before.push(category).contains(c) by {
                    lemma_seq_contains_after_push(before, category, c);
                }
            }
            i += 1;
        }
        let map = CategoryMap { flags };
        proof {
            assert(categories@.take(i as int) =~= categories@);
            assert(map@ =~= encoded(categories@.to_set()));
        }
        map
    }

    /// Whether the map asserts `category`.
    pub fn get(&self, category: Category) -> (flag: bool)
        ensures
            flag == self@[category],
    {
        self.flags[category.ordinal() as usize]
    }

    /// The categories that the map asserts, each once, in the order of their
    /// ordinals.
    pub fn decode(&self) -> (categories: Vec<Category>)
        ensures
            forall|c: Category| categories@.contains(c) == self@[c],
            categories@.to_set() == decoded(self@),
            forall|i: int, j: int|
                0 <= i < j < categories.len() ==> categories[i].index() < categories[j].index(),
    {
        let mut categories: Vec<Category> = Vec::new();
        let mut ordinal: u8 = 0;
        while ordinal < 20
            invariant
                ordinal <= 20,
                forall|c: Category|
                    categories@.contains(c) == (c.index() < ordinal && self.flags[c.index()]),
                forall|i: int, j: int|
                    0 <= i < j < categories.len() ==> #[trigger] categories[i].index()
                        < #[trigger] categories[j].index(),
            decreases 20 - ordinal,
        {
            if self.flags[ordinal as usize] {
                proof {
                    Category::lemma_ordinals(ordinal as int);
                }
                let category = Category::from_ordinal(ordinal).unwrap();
                let ghost before = categories@;
                categories.push(category);
                proof {
                    assert forall|c: Category|
                        categories@.contains(c) == (c.index() < ordinal + 1
                            && self.flags[c.index()]) by {
                        lemma_seq_contains_after_push(before, category, c);
                        Category::lemma_ordinals(c.index());
                        assert(before.contains(c) == (c.index() < ordinal
                            && self.flags[c.index()]));
                    }
                    assert forall|i: int, j: int| 0 <= i < j < categories.len() implies (
                    #[trigger] categories[i].index()) < #[trigger] categories[j].index() by {
                        if j == before.len() {
                            assert(before.contains(before[i]));
                        }
                    }
                }
            }
            ordinal += 1;
        }
        proof {
            assert(categories@.to_set() =~= decoded(self@));
        }
        categories
    }

    /// The entries of the map in storage order: the ordinals from 0 up, each
    /// with its flag.
    pub fn entries(&self) -> (entries: Vec<(u8, bool)>)
        ensures
            entries@ == map_entries(self@),
    {
        let mut entries: Vec<(u8, bool)> = Vec::new();
        let mut ordinal: u8 = 0;
        while ordinal < 20
            invariant
                ordinal <= 20,
                entries.len() == ordinal,
                forall|i: int| 0 <= i < ordinal ==> entries[i] == (i as u8, self.flags[i]),
            decreases 20 - ordinal,
        {
            entries.push((ordinal, self.flags[ordinal as usize]));
            ordinal += 1;
        }
        proof {
            assert forall|i: int| 0 <= i < 20 implies entries@[i] == map_entries(self@)[i] by {
                Category::lemma_ordinals(i);
            }
            assert(entries@ =~= map_entries(self@));
        }
        entries
    }
}

/// Decoding the presence map of a set gives the set back.
pub proof fn lemma_decode_encode(set: Set<Category>)
    ensures
        decoded(encoded(set)) == set,
{
    assert(decoded(encoded(set)) =~= set);
}

/// The presence map depends on membership alone: two sequences that hold the
/// same categories, in whatever order and however often, encode alike.
pub proof fn lemma_encode_order_independent(first: Seq<Category>, second: Seq<Category>)
    requires
        forall|c: Category| first.contains(c) == second.contains(c),
    ensures
        encoded(first.to_set()) == encoded(second.to_set()),
{
    assert(first.to_set() =~= second.to_set());
}

} // verus!
