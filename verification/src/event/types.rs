use crate::json::same_text;
use vstd::prelude::*;

verus! {

/// The kinds of event a server can be asked to report.
#[derive(Clone, Copy, Debug, PartialEq, Eq, Hash, Structural)]
pub enum EventType {
    PlayerMessage,
    PlayerTransform,
    PlayerTravelled,
    PlayerDied,
    BlockBroken,
    BlockPlaced,
    ItemUsed,
    MobKilled,
}

/// How many kinds of event there are.
pub const EVENT_TYPE_COUNT: usize = 8;

impl EventType {
    /// The name of the kind on the wire.
    pub open spec fn name_spec(self) -> Seq<char> {
        match self {
            EventType::PlayerMessage => "PlayerMessage"@,
            EventType::PlayerTransform => "PlayerTransform"@,
            EventType::PlayerTravelled => "PlayerTravelled"@,
            EventType::PlayerDied => "PlayerDied"@,
            EventType::BlockBroken => "BlockBroken"@,
            EventType::BlockPlaced => "BlockPlaced"@,
            EventType::ItemUsed => "ItemUsed"@,
            EventType::MobKilled => "MobKilled"@,
        }
    }

    /// The kind that a wire name denotes, if any.
    pub open spec fn from_name_spec(name: Seq<char>) -> Option<EventType> {
        if name == "PlayerMessage"@ {
            Some(EventType::PlayerMessage)
        } else if name == "PlayerTransform"@ {
            Some(EventType::PlayerTransform)
        } else if name == "PlayerTravelled"@ {
            Some(EventType::PlayerTravelled)
        } else if name == "PlayerDied"@ {
            Some(EventType::PlayerDied)
        } else if name == "BlockBroken"@ {
            Some(EventType::BlockBroken)
        } else if name == "BlockPlaced"@ {
            Some(EventType::BlockPlaced)
        } else if name == "ItemUsed"@ {
            Some(EventType::ItemUsed)
        } else if name == "MobKilled"@ {
            Some(EventType::MobKilled)
        } else {
            None
        }
    }

    /// The position of the kind in the enumeration.
    pub open spec fn index_spec(self) -> int {
        match self {
            EventType::PlayerMessage => 0,
            EventType::PlayerTransform => 1,
            EventType::PlayerTravelled => 2,
            EventType::PlayerDied => 3,
            EventType::BlockBroken => 4,
            EventType::BlockPlaced => 5,
            EventType::ItemUsed => 6,
            EventType::MobKilled => 7,
        }
    }

    /// The name of the kind on the wire.
    pub fn name(self) -> (r: &'static str)
        ensures
            r@ == self.name_spec(),
    {
        match self {
            EventType::PlayerMessage => "PlayerMessage",
            EventType::PlayerTransform => "PlayerTransform",
            EventType::PlayerTravelled => "PlayerTravelled",
            EventType::PlayerDied => "PlayerDied",
            EventType::BlockBroken => "BlockBroken",
            EventType::BlockPlaced => "BlockPlaced",
            EventType::ItemUsed => "ItemUsed",
            EventType::MobKilled => "MobKilled",
        }
    }

    /// The kind that a wire name denotes, if any.
    pub fn from_name(name: &str) -> (r: Option<EventType>)
        ensures
            r == EventType::from_name_spec(name@),
    {
        if same_text(name, "PlayerMessage") {
            Some(EventType::PlayerMessage)
        } else if same_text(name, "PlayerTransform") {
            Some(EventType::PlayerTransform)
        } else if same_text(name, "PlayerTravelled") {
            Some(EventType::PlayerTravelled)
        } else if same_text(name, "PlayerDied") {
            Some(EventType::PlayerDied)
        } else if same_text(name, "BlockBroken") {
            Some(EventType::BlockBroken)
        } else if same_text(name, "BlockPlaced") {
            Some(EventType::BlockPlaced)
        } else if same_text(name, "ItemUsed") {
            Some(EventType::ItemUsed)
        } else if same_text(name, "MobKilled") {
            Some(EventType::MobKilled)
        } else {
            None
        }
    }

    /// The position of the kind in the enumeration.
    pub fn index(self) -> (r: usize)
        ensures
            r == self.index_spec(),
            r < EVENT_TYPE_COUNT,
    {
        match self {
            EventType::PlayerMessage => 0,
            EventType::PlayerTransform => 1,
            EventType::PlayerTravelled => 2,
            EventType::PlayerDied => 3,
            EventType::BlockBroken => 4,
            EventType::BlockPlaced => 5,
            EventType::ItemUsed => 6,
            EventType::MobKilled => 7,
        }
    }
}

impl Default for EventType {
    fn default() -> (r: EventType)
        ensures
            r == EventType::PlayerMessage,
    {
        EventType::PlayerMessage
    }
}

/// Every kind is read back from its own wire name.
pub proof fn lemma_name_reads_back(kind: EventType)
    ensures
        EventType::from_name_spec(kind.name_spec()) == Some(kind),
{
    reveal_strlit("PlayerMessage");
    reveal_strlit("PlayerTransform");
    reveal_strlit("PlayerTravelled");
    reveal_strlit("PlayerDied");
    reveal_strlit("BlockBroken");
    reveal_strlit("BlockPlaced");
    reveal_strlit("ItemUsed");
    reveal_strlit("MobKilled");
    assert("PlayerMessage"@.len() == 13);
    assert("PlayerTransform"@.len() == 15);
    assert("PlayerTravelled"@.len() == 15);
    assert("PlayerDied"@.len() == 10);
    assert("BlockBroken"@.len() == 11);
    assert("BlockPlaced"@.len() == 11);
    assert("ItemUsed"@.len() == 8);
    assert("MobKilled"@.len() == 9);
    assert("PlayerTransform"@[9] == 'n');
    assert("PlayerTravelled"@[9] == 'v');
    assert("BlockBroken"@[5] == 'B');
    assert("BlockPlaced"@[5] == 'P');
}

} // verus!
