//! Remote entity states and their normalised, persistable projection.

use vstd::prelude::*;
use vstd::string::*;
use crate::text::{is_prefix, same_text, starts_with};

verus! {

/// The normalised projection of a remote switch entity.
#[derive(Debug, PartialEq, Eq)]
pub struct BooleanEntity {
    pub id: String,
    pub state: String,
    pub friendly_name: String,
}

/// Mathematical model of a [`BooleanEntity`].
pub struct EntityModel {
    pub id: Seq<char>,
    pub state: Seq<char>,
    pub friendly_name: Seq<char>,
}

impl View for BooleanEntity {
    type V = EntityModel;

    open spec fn view(&self) -> EntityModel {
        EntityModel { id: self.id@, state: self.state@, friendly_name: self.friendly_name@ }
    }
}

impl Clone for BooleanEntity {
    fn clone(&self) -> (res: Self)
        ensures
            res@ == self@,
    {
        BooleanEntity {
            id: self.id.clone(),
            state: self.state.clone(),
            friendly_name: self.friendly_name.clone(),
        }
    }
}

/// The state of an entity as the hub encodes it.
#[derive(Debug, PartialEq, Eq)]
pub enum RawState {
    Text(String),
    Integer(i64),
    Boolean(bool),
    Decimal,
}

/// The value of one attribute: a string, or anything else.
#[derive(Debug, PartialEq, Eq)]
pub enum AttributeValue {
    Text(String),
    Other,
}

/// One attribute of a remote entity.
#[derive(Debug, PartialEq, Eq)]
pub struct Attribute {
    pub key: String,
    pub value: AttributeValue,
}

/// One entity as fetched from the hub. Where a key occurs more than once in
/// `attributes`, the first occurrence counts.
#[derive(Debug, PartialEq, Eq)]
pub struct RemoteEntityState {
    pub entity_id: String,
    pub state: Option<RawState>,
    pub attributes: Vec<Attribute>,
}

/// The prefix that every switch entity's identifier carries.
pub open spec fn switch_prefix() -> Seq<char> {
    "switch."@
}

/// The state that the hub reports for an entity it cannot reach.
pub open spec fn unavailable() -> Seq<char> {
    "unavailable"@
}

/// The attribute that holds an entity's display name.
pub open spec fn friendly_name_key() -> Seq<char> {
    "friendly_name"@
}

/// The message of a failed normalisation.
pub open spec fn conversion_error() -> Seq<char> {
    "Unable to convert state to string"@
}

/// The display name among `attrs`: the text of the first attribute keyed
/// `friendly_name`, empty where there is none or it is no text.
pub open spec fn friendly_name_of(attrs: Seq<Attribute>) -> Seq<char>
    decreases attrs.len(),
{
    if attrs.len() == 0 {
        Seq::empty()
    } else if attrs[0].key@ == friendly_name_key() {
        match attrs[0].value {
            AttributeValue::Text(s) => s@,
            AttributeValue::Other => Seq::empty(),
        }
    } else {
        friendly_name_of(attrs.drop_first())
    }
}

/// What a remote entity normalises to, `None` where its state is no text.
/// An entity without any state counts as unavailable.
pub open spec fn normalized(entry: RemoteEntityState) -> Option<EntityModel> {
    match entry.state {
        None => Some(
            EntityModel {
                id: entry.entity_id@,
                state: unavailable(),
                friendly_name: friendly_name_of(entry.attributes@),
            },
        ),
        Some(RawState::Text(s)) => Some(
            EntityModel {
                id: entry.entity_id@,
                state: s@,
                friendly_name: friendly_name_of(entry.attributes@),
            },
        ),
        Some(_) => None,
    }
}

/// The hub reports the entity's state as the text `unavailable`.
pub open spec fn reported_unavailable(entry: RemoteEntityState) -> bool {
    match entry.state {
        Some(RawState::Text(s)) => s@ == unavailable(),
        _ => false,
    }
}

/// The entity belongs in the list of switches.
pub open spec fn is_listed(entry: RemoteEntityState) -> bool {
    &&& is_prefix(switch_prefix(), entry.entity_id@)
    &&& !reported_unavailable(entry)
    &&& normalized(entry).is_some()
}

/// The switches among `states`, normalised, in the order of `states`.
pub open spec fn listed(states: Seq<RemoteEntityState>) -> Seq<EntityModel>
    decreases states.len(),
{
    if states.len() == 0 {
        Seq::empty()
    } else if is_listed(states.last()) {
        listed(states.drop_last()).push(normalized(states.last()).unwrap())
    } else {
        listed(states.drop_last())
    }
}

/// The models of a sequence of entities.
pub open spec fn models(entities: Seq<BooleanEntity>) -> Seq<EntityModel> {
    entities.map_values(|e: BooleanEntity| e@)
}

/// `entity` is what some entry of `states` normalises to, an entry that is a
/// switch and that the hub did not report unavailable.
pub open spec fn stems_from(states: Seq<RemoteEntityState>, entity: EntityModel) -> bool {
    exists|j: int|
        0 <= j < states.len() && is_listed(#[trigger] states[j]) && normalized(states[j]) == Some(
            entity,
        )
}

/// Every entry of `states` reports a state.
pub open spec fn all_report_a_state(states: Seq<RemoteEntityState>) -> bool {
    forall|j: int| 0 <= j < states.len() ==> (#[trigger] states[j]).state.is_some()
}

/// Every listed entity stems from an entry of `states` that is a switch and
/// that the hub did not report unavailable; so its identifier has the switch
/// prefix.
pub proof fn law_listed_are_switches(states: Seq<RemoteEntityState>)
    ensures
        listed(states).len() <= states.len(),
        forall|k: int|
            0 <= k < listed(states).len() ==> stems_from(states, #[trigger] listed(states)[k]),
        forall|k: int|
            0 <= k < listed(states).len() ==> is_prefix(
                switch_prefix(),
                (#[trigger] listed(states)[k]).id,
            ),
    decreases states.len(),
{
    if states.len() > 0 {
        let front = states.drop_last();
        law_listed_are_switches(front);
        assert forall|k: int| 0 <= k < listed(states).len() implies stems_from(
            states,
            #[trigger] listed(states)[k],
        ) by {
            if k < listed(front).len() {
                assert(listed(states)[k] == listed(front)[k]);
                assert(stems_from(front, listed(front)[k]));
                let j = choose|j: int|
                    0 <= j < front.len() && is_listed(#[trigger] front[j]) && normalized(front[j])
                        == Some(listed(front)[k]);
                assert(states[j] == front[j]);
            } else {
                let j = states.len() - 1;
                assert(is_listed(states[j]));
            }
        }
    }
}

/// Where every entry of `states` reports a state, no listed entity has the
/// state `unavailable`. (An entry without a state is listed as unavailable.)
pub proof fn law_listed_are_available(states: Seq<RemoteEntityState>)
    requires
        all_report_a_state(states),
    ensures
        forall|k: int|
            0 <= k < listed(states).len() ==> (#[trigger] listed(states)[k]).state
                != unavailable(),
{
    law_listed_are_switches(states);
    assert forall|k: int| 0 <= k < listed(states).len() implies (#[trigger] listed(
        states,
    )[k]).state != unavailable() by {
        let e = listed(states)[k];
        assert(stems_from(states, e));
        let j = choose|j: int|
            0 <= j < states.len() && is_listed(#[trigger] states[j]) && normalized(states[j])
                == Some(e);
        assert(states[j].state.is_some());
    }
}

/// The display name among the attributes of an entity.
pub fn friendly_name(attrs: &Vec<Attribute>) -> (res: String)
    ensures
        res@ == friendly_name_of(attrs@),
{
    let mut i: usize = 0;
    assert(attrs@.subrange(0, attrs@.len() as int) =~= attrs@);
    while i < attrs.len()
        invariant
            i <= attrs.len(),
            friendly_name_of(attrs@) == friendly_name_of(attrs@.subrange(i as int, attrs@.len() as int)),
        decreases attrs.len() - i,
    {
        let ghost rest = attrs@.subrange(i as int, attrs@.len() as int);
        assert(rest[0] == attrs@[i as int]);
        assert(rest.drop_first() =~= attrs@.subrange(i + 1, attrs@.len() as int));
        if same_text(attrs[i].key.as_str(), "friendly_name") {
            return match &attrs[i].value {
                AttributeValue::Text(s) => s.clone(),
                AttributeValue::Other => String::new(),
            };
        }
        i += 1;
    }
    String::new()
}

impl BooleanEntity {
    /// Normalises a remote entity. An entity without a state is taken as
    /// unavailable; one whose state is no text is refused.
    pub fn try_from(entry: RemoteEntityState) -> (res: Result<BooleanEntity, String>)
        ensures
            match res {
                Ok(e) => normalized(entry) == Some(e@),
                Err(msg) => normalized(entry).is_none() && msg@ == conversion_error(),
            },
    {
        let name = friendly_name(&entry.attributes);
        match entry.state {
            None => Ok(
                BooleanEntity {
                    id: entry.entity_id,
                    state: "unavailable".to_string(),
                    friendly_name: name,
                },
            ),
            Some(RawState::Text(s)) => Ok(
                BooleanEntity { id: entry.entity_id, state: s, friendly_name: name },
            ),
            Some(_) => Err("Unable to convert state to string".to_string()),
        }
    }
}

/// The switch entities among `states`: an entity is kept where its identifier
/// carries the switch prefix, the hub did not report it unavailable, and its
/// state is a text. The others are left out; the order is kept.
pub fn switch_entities(states: Vec<RemoteEntityState>) -> (res: Vec<BooleanEntity>)
    ensures
        models(res@) == listed(states@),
        res@.len() <= states@.len(),
        forall|k: int|
            0 <= k < res@.len() ==> is_prefix(switch_prefix(), #[trigger] res@[k]@.id),
        forall|k: int| 0 <= k < res@.len() ==> stems_from(states@, #[trigger] res@[k]@),
{
    let mut pending = states;
    let ghost all = pending@;
    let mut kept: Vec<BooleanEntity> = Vec::new();
    let mut held: Vec<RemoteEntityState> = Vec::new();
    // Take the entries out from the back, so that each can be moved.
    while pending.len() > 0
        invariant
            held@.len() + pending@.len() == all.len(),
            pending@ =~= all.take(pending@.len() as int),
            forall|j: int| 0 <= j < held@.len() ==> held@[j] == all[all.len() - 1 - j],
        decreases pending@.len(),
    {
        let last = pending.pop().unwrap();
        held.push(last);
    }
    while held.len() > 0
        invariant
            held@.len() <= all.len(),
            forall|j: int| 0 <= j < held@.len() ==> held@[j] == all[all.len() - 1 - j],
            models(kept@) == listed(all.take(all.len() - held@.len())),
        decreases held@.len(),
    {
        let ghost done = all.take(all.len() - held@.len());
        let entry = held.pop().unwrap();
        let ghost next = all.take(all.len() - held@.len());
        proof {
            assert(next.last() == entry);
            assert(next.drop_last() =~= done);
        }
        if starts_with(entry.entity_id.as_str(), "switch.") && !is_reported_unavailable(&entry) {
            match BooleanEntity::try_from(entry) {
                Ok(entity) => {
                    proof {
                        assert(models(kept@).push(entity@) =~= models(kept@.push(entity)));
                    }
                    kept.push(entity);
                },
                Err(_) => {},
            }
        }
    }
    proof {
        assert(all.take(all.len() as int) =~= all);
        law_listed_are_switches(all);
        assert forall|k: int| 0 <= k < kept@.len() implies is_prefix(
            switch_prefix(),
            #[trigger] kept@[k]@.id,
        ) by {
            assert(listed(all)[k] == kept@[k]@);
        }
        assert forall|k: int| 0 <= k < kept@.len() implies stems_from(
            all,
            #[trigger] kept@[k]@,
        ) by {
            assert(models(kept@)[k] == kept@[k]@);
        }
    }
    kept
}

/// Whether the hub reports the entity's state as the text `unavailable`.
pub fn is_reported_unavailable(entry: &RemoteEntityState) -> (res: bool)
    ensures
        res == reported_unavailable(*entry),
{
    match &entry.state {
        Some(RawState::Text(s)) => same_text(s.as_str(), "unavailable"),
        _ => false,
    }
}

} // verus!
