//! The registry's snapshot: which instances each application has.

use crate::codec::{find_member, member, same_text, DecodeError, DecodeErrorModel};
use crate::decode::{decoded_instance, read_text, text_member, type_fault, wrong_type};
use crate::json::{items_model, lemma_items_model, parsed_text, Json, JsonModel};
use crate::models::{Instance, InstanceModel};
use vstd::prelude::*;

verus! {

/// The views of a list of instances, in their order.
pub open spec fn instances_model(items: Seq<Instance>) -> Seq<InstanceModel> {
    Seq::new(items.len(), |i: int| items[i]@)
}

/// A mapping from application names to instances. No name occurs twice: an
/// insertion under a name that is there replaces what the name had.
#[derive(Debug)]
pub struct AppMap {
    entries: Vec<(String, Vec<Instance>)>,
}

impl AppMap {
    /// The entries as views, in the order in which they are held.
    pub closed spec fn listed(&self) -> Seq<(Seq<char>, Seq<InstanceModel>)> {
        Seq::new(
            self.entries@.len(),
            |i: int| (self.entries@[i].0@, instances_model(self.entries@[i].1@)),
        )
    }

    #[verifier::type_invariant]
    spec fn distinct_names(&self) -> bool {
        forall|i: int, j: int|
            0 <= i < j < self.entries@.len() ==> self.entries@[i].0@ != self.entries@[j].0@
    }

    /// A mapping without applications.
    pub fn new() -> (r: Self)
        ensures
            r@ == Map::<Seq<char>, Seq<InstanceModel>>::empty(),
    {
        let r = AppMap { entries: Vec::new() };
        assert(r@ =~= Map::<Seq<char>, Seq<InstanceModel>>::empty());
        r
    }

    /// The place of a name among the entries.
    fn position(&self, name: &str) -> (r: Option<usize>)
        ensures
            match r {
                Some(k) => k < self.entries@.len() && self.entries@[k as int].0@ == name@,
                None => forall|i: int|
                    0 <= i < self.entries@.len() ==> self.entries@[i].0@ != name@,
            },
    {
        let mut i: usize = 0;
        while i < self.entries.len()
            invariant
                i <= self.entries@.len(),
                forall|k: int| 0 <= k < i ==> self.entries@[k].0@ != name@,
            decreases self.entries.len() - i,
        {
            if same_text(&self.entries[i].0, name) {
                return Some(i);
            }
            i += 1;
        }
        None
    }

    /// The instances of an application, where the mapping has the name. Names
    /// are compared letter for letter.
    pub fn get(&self, name: &str) -> (r: Option<&Vec<Instance>>)
        ensures
            match r {
                Some(found) => self@.contains_key(name@) && self@[name@] == instances_model(
                    found@,
                ),
                None => !self@.contains_key(name@),
            },
    {
        proof {
            use_type_invariant(self);
        }
        match self.position(name) {
            Some(k) => {
                proof {
                    lemma_entry(self.listed(), k as int);
                }
                Some(&self.entries[k].1)
            },
            None => {
                proof {
                    lemma_absent(self.listed(), name@);
                }
                None
            },
        }
    }

    /// Whether the mapping has an application of the name.
    pub fn contains_key(&self, name: &str) -> (r: bool)
        ensures
            r == self@.contains_key(name@),
    {
        self.get(name).is_some()
    }

    /// How many applications the mapping has.
    pub fn len(&self) -> (r: usize)
        ensures
            self@.dom().finite(),
            r == self@.dom().len(),
    {
        proof {
            use_type_invariant(self);
            lemma_count(self.listed());
        }
        self.entries.len()
    }

    /// Whether the mapping has no application.
    pub fn is_empty(&self) -> (r: bool)
        ensures
            r == (self@ == Map::<Seq<char>, Seq<InstanceModel>>::empty()),
    {
        proof {
            use_type_invariant(self);
            if self.entries@.len() > 0 {
                lemma_entry(self.listed(), 0);
            } else {
                assert(self@ =~= Map::<Seq<char>, Seq<InstanceModel>>::empty());
            }
        }
        self.entries.len() == 0
    }

    /// The names of the applications, each once.
    pub fn names(&self) -> (r: Vec<String>)
        ensures
            r@.len() == self@.dom().len(),
            forall|k: int| 0 <= k < r@.len() ==> self@.contains_key(#[trigger] r@[k]@),
            forall|name: Seq<char>|
                self@.contains_key(name) ==> exists|k: int|
                    0 <= k < r@.len() && (#[trigger] r@[k])@ == name,
            forall|i: int, j: int| 0 <= i < j < r@.len() ==> r@[i]@ != r@[j]@,
    {
        proof {
            use_type_invariant(self);
            lemma_count(self.listed());
        }
        let mut out: Vec<String> = Vec::new();
        let mut i: usize = 0;
        while i < self.entries.len()
            invariant
                i <= self.entries@.len(),
                out@.len() == i,
                forall|k: int| 0 <= k < i ==> (#[trigger] out@[k])@ == self.entries@[k].0@,
            decreases self.entries.len() - i,
        {
            out.push(self.entries[i].0.clone());
            i += 1;
        }
        proof {
            let listed = self.listed();
            assert forall|k: int| 0 <= k < out@.len() implies self@.contains_key(
                #[trigger] out@[k]@,
            ) by {
                lemma_entry(listed, k);
            }
            assert forall|name: Seq<char>| self@.contains_key(name) implies exists|k: int|
                0 <= k < out@.len() && (#[trigger] out@[k])@ == name by {
                let p = place_of(listed, name);
                assert(listed[p].0 == name);
                assert(out@[p]@ == name);
            }
        }
        out
    }

    /// Puts an application's instances under its name, in place of what the
    /// name had.
    pub fn insert(&mut self, name: String, instances: Vec<Instance>)
        ensures
            final(self)@ == old(self)@.insert(name@, instances_model(instances@)),
    {
        proof {
            use_type_invariant(&*self);
        }
        let ghost before = self.listed();
        let ghost added = (name@, instances_model(instances@));
        let place = self.position(name.as_str());
        let mut entries: Vec<(String, Vec<Instance>)> = Vec::new();
        core::mem::swap(&mut self.entries, &mut entries);
        match place {
            Some(k) => {
                entries.set(k, (name, instances));
                proof {
                    lemma_replace(before, k as int, added.1);
                }
            },
            None => {
                entries.push((name, instances));
                proof {
                    lemma_append(before, added);
                }
            },
        }
        core::mem::swap(&mut self.entries, &mut entries);
        proof {
            match place {
                Some(k) => {
                    assert(self.listed() =~= before.update(k as int, added));
                },
                None => {
                    assert(self.listed() =~= before.push(added));
                },
            }
        }
    }

    /// Takes an application out of the mapping and hands its instances over.
    pub fn remove(&mut self, name: &str) -> (r: Option<Vec<Instance>>)
        ensures
            match r {
                Some(found) => old(self)@.contains_key(name@) && old(self)@[name@]
                    == instances_model(found@),
                None => !old(self)@.contains_key(name@),
            },
            final(self)@ == old(self)@.remove(name@),
    {
        proof {
            use_type_invariant(&*self);
        }
        let ghost before = self.listed();
        match self.position(name) {
            Some(k) => {
                let mut entries: Vec<(String, Vec<Instance>)> = Vec::new();
                core::mem::swap(&mut self.entries, &mut entries);
                let taken = entries.remove(k);
                proof {
                    lemma_entry(before, k as int);
                    lemma_remove(before, k as int);
                }
                core::mem::swap(&mut self.entries, &mut entries);
                proof {
                    assert(self.listed() =~= before.remove(k as int));
                }
                Some(taken.1)
            },
            None => {
                proof {
                    lemma_absent(before, name@);
                    assert(self@ =~= old(self)@.remove(name@));
                }
                None
            },
        }
    }
}

impl Clone for AppMap {
    /// A mapping with the same names, each with a copy of its instances.
    fn clone(&self) -> (r: Self)
        ensures
            r@.dom() == self@.dom(),
    {
        proof {
            use_type_invariant(self);
        }
        let mut entries: Vec<(String, Vec<Instance>)> = Vec::new();
        let mut i: usize = 0;
        while i < self.entries.len()
            invariant
                i <= self.entries@.len(),
                entries@.len() == i,
                forall|k: int| 0 <= k < i ==> (#[trigger] entries@[k]).0@ == self.entries@[k].0@,
            decreases self.entries.len() - i,
        {
            entries.push((self.entries[i].0.clone(), self.entries[i].1.clone()));
            i += 1;
        }
        let r = AppMap { entries };
        proof {
            let mine = self.listed();
            let theirs = r.listed();
            assert forall|name: Seq<char>| has_name(theirs, name) <==> has_name(mine, name) by {
                if has_name(theirs, name) {
                    let p = place_of(theirs, name);
                    assert(mine[p].0 == name);
                }
                if has_name(mine, name) {
                    let p = place_of(mine, name);
                    assert(theirs[p].0 == name);
                }
            }
            assert(r@.dom() =~= self@.dom());
        }
        r
    }
}

impl View for AppMap {
    type V = Map<Seq<char>, Seq<InstanceModel>>;

    closed spec fn view(&self) -> Map<Seq<char>, Seq<InstanceModel>> {
        as_map(self.listed())
    }
}

/// Whether no name occurs twice in a list of entries.
pub open spec fn distinct(listed: Seq<(Seq<char>, Seq<InstanceModel>)>) -> bool {
    forall|i: int, j: int| 0 <= i < j < listed.len() ==> listed[i].0 != listed[j].0
}

/// Whether a list of entries has an entry under a name.
pub open spec fn has_name(listed: Seq<(Seq<char>, Seq<InstanceModel>)>, name: Seq<char>) -> bool {
    exists|i: int| 0 <= i < listed.len() && (#[trigger] listed[i]).0 == name
}

/// The place of a name in a list of entries that has it.
pub open spec fn place_of(listed: Seq<(Seq<char>, Seq<InstanceModel>)>, name: Seq<char>) -> int {
    choose|i: int| 0 <= i < listed.len() && (#[trigger] listed[i]).0 == name
}

/// The mapping that a list of entries with distinct names stands for.
pub open spec fn as_map(listed: Seq<(Seq<char>, Seq<InstanceModel>)>) -> Map<
    Seq<char>,
    Seq<InstanceModel>,
> {
    Map::new(
        |name: Seq<char>| has_name(listed, name),
        |name: Seq<char>| listed[place_of(listed, name)].1,
    )
}

proof fn lemma_entry(listed: Seq<(Seq<char>, Seq<InstanceModel>)>, k: int)
    requires
        distinct(listed),
        0 <= k < listed.len(),
    ensures
        as_map(listed).contains_key(listed[k].0),
        as_map(listed)[listed[k].0] == listed[k].1,
{
    let name = listed[k].0;
    assert(has_name(listed, name));
    let p = place_of(listed, name);
    assert(p == k) by {
        if p < k {
            assert(listed[p].0 != listed[k].0);
        } else if k < p {
            assert(listed[k].0 != listed[p].0);
        }
    }
}

proof fn lemma_absent(listed: Seq<(Seq<char>, Seq<InstanceModel>)>, name: Seq<char>)
    requires
        forall|i: int| 0 <= i < listed.len() ==> listed[i].0 != name,
    ensures
        !as_map(listed).contains_key(name),
{
}

proof fn lemma_count(listed: Seq<(Seq<char>, Seq<InstanceModel>)>)
    requires
        distinct(listed),
    ensures
        as_map(listed).dom().finite(),
        as_map(listed).dom().len() == listed.len(),
    decreases listed.len(),
{
    if listed.len() == 0 {
        assert(as_map(listed).dom() =~= Set::<Seq<char>>::empty());
    } else {
        let before = listed.drop_last();
        let last = listed.last();
        assert(distinct(before)) by {
            assert forall|i: int, j: int| 0 <= i < j < before.len() implies before[i].0
                != before[j].0 by {
                assert(before[i] == listed[i]);
                assert(before[j] == listed[j]);
            }
        }
        assert forall|i: int| 0 <= i < before.len() implies before[i].0 != last.0 by {
            assert(before[i] == listed[i]);
            assert(last == listed[listed.len() - 1]);
        }
        lemma_count(before);
        lemma_append(before, last);
        lemma_absent(before, last.0);
        assert(before.push(last) =~= listed);
        assert(as_map(listed).dom() =~= as_map(before).dom().insert(last.0));
    }
}

proof fn lemma_append(
    listed: Seq<(Seq<char>, Seq<InstanceModel>)>,
    added: (Seq<char>, Seq<InstanceModel>),
)
    requires
        distinct(listed),
        forall|i: int| 0 <= i < listed.len() ==> listed[i].0 != added.0,
    ensures
        distinct(listed.push(added)),
        as_map(listed.push(added)) == as_map(listed).insert(added.0, added.1),
{
    let after = listed.push(added);
    assert(distinct(after));
    assert forall|name: Seq<char>| has_name(after, name) <==> (name == added.0 || has_name(
        listed,
        name,
    )) by {
        if has_name(after, name) {
            let p = place_of(after, name);
            if p < listed.len() {
                assert(listed[p].0 == name);
            }
        }
        if name == added.0 {
            assert(after[listed.len() as int].0 == name);
        }
        if has_name(listed, name) {
            let p = place_of(listed, name);
            assert(after[p].0 == name);
        }
    }
    assert forall|name: Seq<char>| has_name(after, name) implies as_map(after)[name] == as_map(
        listed,
    ).insert(added.0, added.1)[name] by {
        let p = place_of(after, name);
        lemma_entry(after, p);
        if p < listed.len() {
            assert(after[p] == listed[p]);
            lemma_entry(listed, p);
        }
    }
    assert(as_map(after) =~= as_map(listed).insert(added.0, added.1));
}

proof fn lemma_replace(
    listed: Seq<(Seq<char>, Seq<InstanceModel>)>,
    k: int,
    instances: Seq<InstanceModel>,
)
    requires
        distinct(listed),
        0 <= k < listed.len(),
    ensures
        distinct(listed.update(k, (listed[k].0, instances))),
        as_map(listed.update(k, (listed[k].0, instances))) == as_map(listed).insert(
            listed[k].0,
            instances,
        ),
{
    let key = listed[k].0;
    let after = listed.update(k, (key, instances));
    assert(distinct(after)) by {
        assert forall|i: int, j: int| 0 <= i < j < after.len() implies after[i].0 != after[j].0 by {
            assert(after[i].0 == listed[i].0);
            assert(after[j].0 == listed[j].0);
        }
    }
    assert forall|name: Seq<char>| has_name(after, name) <==> has_name(listed, name) by {
        if has_name(after, name) {
            let p = place_of(after, name);
            assert(listed[p].0 == name);
        }
        if has_name(listed, name) {
            let p = place_of(listed, name);
            assert(after[p].0 == name);
        }
    }
    assert(has_name(listed, key)) by {
        assert(listed[k].0 == key);
    }
    assert forall|name: Seq<char>| has_name(after, name) implies as_map(after)[name] == as_map(
        listed,
    ).insert(key, instances)[name] by {
        let p = place_of(after, name);
        lemma_entry(after, p);
        if p != k {
            assert(after[p] == listed[p]);
            lemma_entry(listed, p);
            assert(listed[p].0 != key) by {
                if p < k {
                    assert(listed[p].0 != listed[k].0);
                } else {
                    assert(listed[k].0 != listed[p].0);
                }
            }
        }
    }
    assert(as_map(after) =~= as_map(listed).insert(key, instances));
}

proof fn lemma_remove(listed: Seq<(Seq<char>, Seq<InstanceModel>)>, k: int)
    requires
        distinct(listed),
        0 <= k < listed.len(),
    ensures
        distinct(listed.remove(k)),
        as_map(listed.remove(k)) == as_map(listed).remove(listed[k].0),
{
    let key = listed[k].0;
    let after = listed.remove(k);
    assert(distinct(after)) by {
        assert forall|i: int, j: int| 0 <= i < j < after.len() implies after[i].0 != after[j].0 by {
            let oi = if i < k {
                i
            } else {
                i + 1
            };
            let oj = if j < k {
                j
            } else {
                j + 1
            };
            assert(after[i] == listed[oi]);
            assert(after[j] == listed[oj]);
            assert(listed[oi].0 != listed[oj].0);
        }
    }
    assert forall|name: Seq<char>| has_name(after, name) <==> (name != key && has_name(
        listed,
        name,
    )) by {
        if has_name(after, name) {
            let p = place_of(after, name);
            let op = if p < k {
                p
            } else {
                p + 1
            };
            assert(after[p] == listed[op]);
            assert(listed[op].0 == name);
            assert(name != key) by {
                if op < k {
                    assert(listed[op].0 != listed[k].0);
                } else {
                    assert(listed[k].0 != listed[op].0);
                }
            }
        }
        if name != key && has_name(listed, name) {
            let p = place_of(listed, name);
            let np = if p < k {
                p
            } else {
                p - 1
            };
            assert(after[np] == listed[p]);
            assert(after[np].0 == name);
        }
    }
    assert forall|name: Seq<char>| has_name(after, name) implies as_map(after)[name] == as_map(
        listed,
    ).remove(key)[name] by {
        let p = place_of(after, name);
        let op = if p < k {
            p
        } else {
            p + 1
        };
        lemma_entry(after, p);
        assert(after[p] == listed[op]);
        lemma_entry(listed, op);
    }
    assert(as_map(after) =~= as_map(listed).remove(key));
}

/// One application of a snapshot: its name and its instances.
pub type Application = (Seq<char>, Seq<InstanceModel>);

/// The instances of an array, or the fault of the first item that is none.
pub open spec fn decoded_instances(items: Seq<JsonModel>) -> Result<
    Seq<InstanceModel>,
    DecodeErrorModel,
>
    decreases items.len(),
{
    if items.len() == 0 {
        Ok(Seq::empty())
    } else {
        match decoded_instances(items.drop_last()) {
            Err(e) => Err(e),
            Ok(before) => match decoded_instance(items.last()) {
                Err(e) => Err(e),
                Ok(instance) => Ok(before.push(instance)),
            },
        }
    }
}

/// One element of the wire format's list of applications: an object with the
/// application's `name` and the array `instance`, which may be empty.
pub open spec fn decoded_application(value: JsonModel) -> Result<Application, DecodeErrorModel> {
    match value {
        JsonModel::Object(obj) => match text_member(obj, "name"@) {
            Err(e) => Err(e),
            Ok(name) => match member(obj, "instance"@) {
                None => Err(DecodeErrorModel::MissingField("instance"@)),
                Some(JsonModel::Array(items)) => match decoded_instances(items) {
                    Err(e) => Err(e),
                    Ok(instances) => Ok((name, instances)),
                },
                Some(_) => Err(wrong_type("instance"@, "an array"@)),
            },
        },
        _ => Err(wrong_type("application"@, "an object"@)),
    }
}

/// The applications of an array, or the fault of the first item that is none.
pub open spec fn decoded_application_list(items: Seq<JsonModel>) -> Result<
    Seq<Application>,
    DecodeErrorModel,
>
    decreases items.len(),
{
    if items.len() == 0 {
        Ok(Seq::empty())
    } else {
        match decoded_application_list(items.drop_last()) {
            Err(e) => Err(e),
            Ok(before) => match decoded_application(items.last()) {
                Err(e) => Err(e),
                Ok(application) => Ok(before.push(application)),
            },
        }
    }
}

/// The mapping that comes of putting the applications of a list under their
/// names one after the other: of two with one name the later one stays.
pub open spec fn flattened(apps: Seq<Application>) -> Map<Seq<char>, Seq<InstanceModel>>
    decreases apps.len(),
{
    if apps.len() == 0 {
        Map::empty()
    } else {
        flattened(apps.drop_last()).insert(apps.last().0, apps.last().1)
    }
}

/// What a snapshot decodes to. The wire format nests the list: the document
/// is an object whose member `applications` is an object whose member
/// `application` is the array of applications.
pub open spec fn decoded_applications(value: JsonModel) -> Result<
    Map<Seq<char>, Seq<InstanceModel>>,
    DecodeErrorModel,
> {
    match value {
        JsonModel::Object(root) => match member(root, "applications"@) {
            None => Err(DecodeErrorModel::MissingField("applications"@)),
            Some(JsonModel::Object(inner)) => match member(inner, "application"@) {
                None => Err(DecodeErrorModel::MissingField("application"@)),
                Some(JsonModel::Array(items)) => match decoded_application_list(items) {
                    Err(e) => Err(e),
                    Ok(apps) => Ok(flattened(apps)),
                },
                Some(_) => Err(wrong_type("application"@, "an array"@)),
            },
            Some(_) => Err(wrong_type("applications"@, "an object"@)),
        },
        _ => Err(wrong_type("Applications"@, "an object"@)),
    }
}

/// What a snapshot's text decodes to: a text that is no JSON is a fault of
/// its own kind.
pub open spec fn decoded_snapshot(text: Seq<char>) -> Result<
    Map<Seq<char>, Seq<InstanceModel>>,
    DecodeErrorModel,
> {
    match parsed_text(text) {
        Err(message) => Err(DecodeErrorModel::Syntax(message)),
        Ok(document) => decoded_applications(document),
    }
}

/// A fault among the first items of an array of instances is the fault of the
/// whole array.
pub proof fn lemma_instances_fault(items: Seq<JsonModel>, k: int)
    requires
        0 <= k <= items.len(),
        decoded_instances(items.take(k)) is Err,
    ensures
        decoded_instances(items) == decoded_instances(items.take(k)),
    decreases items.len() - k,
{
    if k < items.len() {
        assert(items.take(k + 1).drop_last() =~= items.take(k));
        lemma_instances_fault(items, k + 1);
    } else {
        assert(items.take(k) =~= items);
    }
}

/// A fault among the first items of an array of applications is the fault of
/// the whole array.
pub proof fn lemma_application_list_fault(items: Seq<JsonModel>, k: int)
    requires
        0 <= k <= items.len(),
        decoded_application_list(items.take(k)) is Err,
    ensures
        decoded_application_list(items) == decoded_application_list(items.take(k)),
    decreases items.len() - k,
{
    if k < items.len() {
        assert(items.take(k + 1).drop_last() =~= items.take(k));
        lemma_application_list_fault(items, k + 1);
    } else {
        assert(items.take(k) =~= items);
    }
}

fn read_instances(items: &Vec<Json>) -> (r: Result<Vec<Instance>, DecodeError>)
    ensures
        match r {
            Ok(instances) => decoded_instances(items_model(items@)) == Ok::<
                Seq<InstanceModel>,
                DecodeErrorModel,
            >(instances_model(instances@)),
            Err(e) => decoded_instances(items_model(items@)) == Err::<
                Seq<InstanceModel>,
                DecodeErrorModel,
            >(e@),
        },
{
    let ghost models = items_model(items@);
    proof {
        lemma_items_model(items@);
    }
    let mut out: Vec<Instance> = Vec::new();
    let mut i: usize = 0;
    proof {
        assert(instances_model(out@) =~= Seq::<InstanceModel>::empty());
    }
    while i < items.len()
        invariant
            i <= items.len(),
            models == items_model(items@),
            models.len() == items@.len(),
            forall|k: int| 0 <= k < items@.len() ==> (#[trigger] models[k]) == items@[k]@,
            decoded_instances(models.take(i as int)) == Ok::<Seq<InstanceModel>, DecodeErrorModel>(
                instances_model(out@),
            ),
        decreases items.len() - i,
    {
        let ghost before = instances_model(out@);
        proof {
            assert(models.take(i + 1).drop_last() =~= models.take(i as int));
            assert(models.take(i + 1).last() == items@[i as int]@);
        }
        match Instance::from_json(&items[i]) {
            Ok(instance) => {
                out.push(instance);
                proof {
                    assert(instances_model(out@) =~= before.push(instance@));
                }
            },
            Err(e) => {
                proof {
                    lemma_instances_fault(models, i + 1);
                }
                return Err(e);
            },
        }
        i += 1;
    }
    proof {
        assert(models.take(i as int) =~= models);
    }
    Ok(out)
}

fn read_application(value: &Json) -> (r: Result<(String, Vec<Instance>), DecodeError>)
    ensures
        match r {
            Ok(app) => decoded_application(value@) == Ok::<Application, DecodeErrorModel>(
                (app.0@, instances_model(app.1@)),
            ),
            Err(e) => decoded_application(value@) == Err::<Application, DecodeErrorModel>(e@),
        },
{
    match value {
        Json::Object(members) => {
            let name = read_text(members, "name")?;
            match find_member(members, "instance") {
                None => Err(DecodeError::MissingField("instance".to_owned())),
                Some(Json::Array(items)) => {
                    let instances = read_instances(items)?;
                    Ok((name, instances))
                },
                Some(_) => Err(type_fault("instance", "an array")),
            }
        },
        _ => Err(type_fault("application", "an object")),
    }
}

/// Puts the applications of a list into a mapping, in their order.
fn read_application_list(items: &Vec<Json>) -> (r: Result<AppMap, DecodeError>)
    ensures
        match r {
            Ok(apps) => decoded_application_list(items_model(items@)) is Ok && apps@ == flattened(
                decoded_application_list(items_model(items@))->Ok_0,
            ),
            Err(e) => decoded_application_list(items_model(items@)) == Err::<
                Seq<Application>,
                DecodeErrorModel,
            >(e@),
        },
{
    let ghost models = items_model(items@);
    let ghost done = Seq::<Application>::empty();
    proof {
        lemma_items_model(items@);
    }
    let mut apps = AppMap::new();
    let mut i: usize = 0;
    while i < items.len()
        invariant
            i <= items.len(),
            models == items_model(items@),
            models.len() == items@.len(),
            forall|k: int| 0 <= k < items@.len() ==> (#[trigger] models[k]) == items@[k]@,
            decoded_application_list(models.take(i as int)) == Ok::<
                Seq<Application>,
                DecodeErrorModel,
            >(done),
            apps@ == flattened(done),
        decreases items.len() - i,
    {
        proof {
            assert(models.take(i + 1).drop_last() =~= models.take(i as int));
            assert(models.take(i + 1).last() == items@[i as int]@);
        }
        match read_application(&items[i]) {
            Ok(app) => {
                proof {
                    let added = (app.0@, instances_model(app.1@));
                    assert(done.push(added).drop_last() =~= done);
                    done = done.push(added);
                }
                apps.insert(app.0, app.1);
            },
            Err(e) => {
                proof {
                    lemma_application_list_fault(models, i + 1);
                }
                return Err(e);
            },
        }
        i += 1;
    }
    proof {
        assert(models.take(i as int) =~= models);
    }
    Ok(apps)
}

/// The registry's snapshot: every application that it knows, each with its
/// instances in the order in which the registry lists them.
#[derive(Debug, Clone)]
pub struct Applications {
    pub applications: AppMap,
}

impl View for Applications {
    type V = Map<Seq<char>, Seq<InstanceModel>>;

    open spec fn view(&self) -> Map<Seq<char>, Seq<InstanceModel>> {
        self.applications@
    }
}

impl Applications {
    /// Reads a snapshot from its wire form. Nothing is returned of a document
    /// that has a fault anywhere.
    pub fn from_json(value: &Json) -> (r: Result<Applications, DecodeError>)
        ensures
            match r {
                Ok(snapshot) => decoded_applications(value@) == Ok::<
                    Map<Seq<char>, Seq<InstanceModel>>,
                    DecodeErrorModel,
                >(snapshot@),
                Err(e) => decoded_applications(value@) == Err::<
                    Map<Seq<char>, Seq<InstanceModel>>,
                    DecodeErrorModel,
                >(e@),
            },
    {
        match value {
            Json::Object(root) => match find_member(root, "applications") {
                None => Err(DecodeError::MissingField("applications".to_owned())),
                Some(Json::Object(inner)) => match find_member(inner, "application") {
                    None => Err(DecodeError::MissingField("application".to_owned())),
                    Some(Json::Array(items)) => {
                        let applications = read_application_list(items)?;
                        Ok(Applications { applications })
                    },
                    Some(_) => Err(type_fault("application", "an array")),
                },
                Some(_) => Err(type_fault("applications", "an object")),
            },
            _ => Err(type_fault("Applications", "an object")),
        }
    }

    /// Reads a snapshot from the text of a response.
    pub fn from_json_text(text: &str) -> (r: Result<Applications, DecodeError>)
        ensures
            match r {
                Ok(snapshot) => decoded_snapshot(text@) == Ok::<
                    Map<Seq<char>, Seq<InstanceModel>>,
                    DecodeErrorModel,
                >(snapshot@),
                Err(e) => decoded_snapshot(text@) == Err::<
                    Map<Seq<char>, Seq<InstanceModel>>,
                    DecodeErrorModel,
                >(e@),
            },
    {
        match Json::parse(text) {
            Ok(document) => Applications::from_json(&document),
            Err(message) => Err(DecodeError::Syntax(message)),
        }
    }
}

} // verus!
