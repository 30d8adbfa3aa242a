use vstd::prelude::*;

verus! {

/// The level name every generated entry carries.
pub open spec fn debug_level() -> Seq<char> {
    seq!['D', 'e', 'b', 'u', 'g']
}

/// The categories every generated entry enables, in order.
pub open spec fn default_categories() -> Seq<Seq<char>> {
    seq![
        seq!['b', 'e', 'h', 'a', 'v', 'i', 'o', 'r'],
        seq!['s', 'c', 'a', 'n', 'n', 'e', 'r'],
    ]
}

/// Desired logging policy for one subsystem.
pub struct SubsystemConfig {
    pub subsystem: String,
    pub level: String,
    pub private_data: bool,
    pub categories: Vec<String>,
}

impl SubsystemConfig {
    /// The text of each category name, in order.
    pub open spec fn category_names(&self) -> Seq<Seq<char>> {
        self.categories@.map_values(|c: String| c@)
    }

    /// The entry that a generated profile holds for `name`: debug level,
    /// private data captured, the default categories.
    pub open spec fn is_default_for(&self, name: Seq<char>) -> bool {
        &&& self.subsystem@ == name
        &&& self.level@ == debug_level()
        &&& self.private_data
        &&& self.category_names() == default_categories()
    }

    pub fn new(subsystem: String) -> (r: SubsystemConfig)
        ensures
            r.is_default_for(subsystem@),
    {
        let level = "Debug".to_owned();
        let behavior = "behavior".to_owned();
        let scanner = "scanner".to_owned();
        proof {
            reveal_strlit("Debug");
            reveal_strlit("behavior");
            reveal_strlit("scanner");
        }
        assert(level@ =~= debug_level());
        assert(behavior@ =~= default_categories()[0]);
        assert(scanner@ =~= default_categories()[1]);
        let mut categories: Vec<String> = Vec::new();
        categories.push(behavior);
        categories.push(scanner);
        let r = SubsystemConfig { subsystem, level, private_data: true, categories };
        assert(r.category_names() =~= default_categories());
        r
    }
}

} // verus!
