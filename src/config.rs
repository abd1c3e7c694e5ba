//! The set of configured power supplies and the choice among them.
use vstd::prelude::*;

use crate::power_supplies::bk_precision_196x::BkPrecision196X;
use crate::power_supplies::{ConfigError, PowerSupplyConfig, Transmission};

verus! {

/// The first configuration in `entries` whose name is `name`.
pub open spec fn find_supply(entries: Seq<(String, PowerSupplyConfig)>, name: Seq<char>) -> Option<
    PowerSupplyConfig,
>
    decreases entries.len(),
{
    if entries.len() == 0 {
        None
    } else if entries[0].0@ == name {
        Some(entries[0].1)
    } else {
        find_supply(entries.drop_first(), name)
    }
}

/// All configured power supplies, by name, and the one used when no other is chosen.
pub struct Config {
    /// The power supply used when a specific one isn't chosen.
    pub default_supply: String,
    /// Named power supply configurations; a name is meant to occur once.
    pub power_supplies: Vec<(String, PowerSupplyConfig)>,
}

impl Config {
    /// The name of the supply to use: the one chosen, else the default.
    pub open spec fn chosen_name(self, chosen: Option<String>) -> String {
        match chosen {
            Some(name) => name,
            None => self.default_supply,
        }
    }

    /// The configuration of the power supply called `name`, if there is one.
    pub fn find(&self, name: &String) -> (r: Option<&PowerSupplyConfig>)
        ensures
            match r {
                Some(supply) => find_supply(self.power_supplies@, name@) == Some(*supply),
                None => find_supply(self.power_supplies@, name@) is None,
            },
    {
        let entries = &self.power_supplies;
        let mut i: usize = 0;
        assert(entries@.subrange(0, entries@.len() as int) =~= entries@);
        while i < entries.len()
            invariant
                entries == &self.power_supplies,
                i <= entries@.len(),
                find_supply(entries@, name@) == find_supply(entries@.subrange(i as int, entries@.len() as int), name@),
            decreases entries@.len() - i,
        {
            let ghost rest = entries@.subrange(i as int, entries@.len() as int);
            assert(rest.drop_first() =~= entries@.subrange(i + 1, entries@.len() as int));
            assert(rest[0] == entries@[i as int]);
            if entries[i].0 == *name {
                return Some(&entries[i].1);
            }
            i = i + 1;
        }
        None
    }

    /// Starts a session with the chosen power supply, or the default one when none is
    /// chosen: its driver and the command to send once its serial port is open.
    pub fn get_power_supply(&self, chosen: Option<String>) -> (r: Result<(BkPrecision196X, Transmission), ConfigError>)
        ensures
            match find_supply(self.power_supplies@, self.chosen_name(chosen)@) {
                Some(supply) => supply.loads(r),
                None => r == Err::<(BkPrecision196X, Transmission), ConfigError>(
                    ConfigError::UnknownSupply { name: self.chosen_name(chosen) },
                ),
            },
    {
        let name = match chosen {
            Some(name) => name,
            None => self.default_supply.clone(),
        };
        match self.find(&name) {
            Some(supply) => supply.load(),
            None => Err(ConfigError::UnknownSupply { name }),
        }
    }
}

} // verus!
