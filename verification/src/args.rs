//! The test-group configuration: a name set exactly once at process start and
//! read thereafter as immutable. Setting it a second time is a no-op, not an
//! error.

use vstd::prelude::*;

verus! {

/// What one set attempt does to the stored group name: the first call wins,
/// every later call leaves the stored value in place.
pub open spec fn set_group(current: Option<Seq<char>>, name: Seq<char>) -> Option<Seq<char>> {
    match current {
        Some(existing) => Some(existing),
        None => Some(name),
    }
}

/// Holds the test group name once it has been set. The platform owns one
/// instance of this for the whole run; the registry announcement and the
/// module banners read the name through it.
pub struct GroupConfig {
    group: Option<String>,
}

impl View for GroupConfig {
    type V = Option<Seq<char>>;

    closed spec fn view(&self) -> Option<Seq<char>> {
        match self.group {
            Some(ref s) => Some(s@),
            None => None,
        }
    }
}

impl GroupConfig {
    /// A fresh configuration with no group name set yet.
    pub fn new() -> (config: GroupConfig)
        ensures
            config@ is None,
    {
        GroupConfig { group: None }
    }
}

/// Sets the test group name. Only the first call has an effect; a later call
/// with a different value leaves the first value in place.
pub fn set_test_group(config: &mut GroupConfig, name: &str)
    ensures
        final(config)@ == set_group(old(config)@, name@),
{
    if config.group.is_none() {
        config.group = Some(name.to_owned());
    }
}

/// Gets the test group name, if set.
pub fn get_test_group(config: &GroupConfig) -> (result: Option<&String>)
    ensures
        match result {
            Some(s) => config@ == Some::<Seq<char>>(s@),
            None => config@ is None,
        },
{
    match config.group {
        Some(ref s) => Some(s),
        None => None,
    }
}

/// Setting the group twice with different values leaves the first value in
/// effect: the configuration is write-once.
pub proof fn lemma_set_group_first_call_wins(first: Seq<char>, second: Seq<char>)
    ensures
        set_group(set_group(None, first), second) == Some(first),
{
}

} // verus!
