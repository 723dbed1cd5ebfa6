use vstd::prelude::*;
use vstd::string::*;
use core::marker::PhantomData;

verus! {

/// A second handler (or projection) for a message type that already has one.
#[derive(Debug)]
pub struct DuplicateHandlerError(pub String);

impl DuplicateHandlerError {
    pub fn new(message_type: String) -> (r: Self)
        ensures
            r.0 == message_type,
    {
        DuplicateHandlerError(message_type)
    }

    pub fn message_type(&self) -> (r: &String)
        ensures
            *r == self.0,
    {
        &self.0
    }

    /// The sentence that reports the error.
    pub fn description(&self) -> (r: String)
        ensures
            r@ == "A handler that recieves "@ + self.0@ + " already exists"@,
    {
        let mut r = String::from_str("A handler that recieves ");
        r.append(self.0.as_str());
        r.append(" already exists");
        r
    }
}

/// One step of handling a message: the typed handler at an index, or the catchall.
#[derive(Clone, Copy, Debug, PartialEq, Eq, Structural)]
pub enum DispatchStep {
    Handler(usize),
    Catchall,
}

/// Handlers (or projections) keyed by the message type they take, at most one per
/// type, in the order they were added, and an optional catchall that takes every
/// message after them.
#[derive(Debug)]
pub struct HandlerCollection<H> {
    pub handlers: Vec<(String, H)>,
    pub catchall: Option<H>,
}

/// The keys of `entries`.
pub open spec fn keys_of<H>(entries: Seq<(String, H)>) -> Seq<Seq<char>> {
    entries.map_values(|e: (String, H)| e.0@)
}

/// The new key at `i` clashes: a handler holds it already, or it came earlier
/// among the new keys.
pub open spec fn clashes(held: Seq<Seq<char>>, new_keys: Seq<Seq<char>>, i: int) -> bool {
    held.contains(new_keys[i]) || exists|j: int| 0 <= j < i && new_keys[j] == new_keys[i]
}

/// `i` is the first new key that clashes.
pub open spec fn first_clash(held: Seq<Seq<char>>, new_keys: Seq<Seq<char>>, i: int) -> bool {
    &&& 0 <= i < new_keys.len()
    &&& clashes(held, new_keys, i)
    &&& forall|k: int| 0 <= k < i ==> !clashes(held, new_keys, k)
}

proof fn lemma_prefix_clean(held: Seq<Seq<char>>, new_keys: Seq<Seq<char>>, i: int)
    requires
        0 <= i <= new_keys.len(),
        forall|k: int| 0 <= k < i ==> !held.contains(#[trigger] new_keys[k]),
        forall|k: int, l: int| 0 <= k < l < i ==> new_keys[k] != new_keys[l],
    ensures
        forall|k: int| 0 <= k < i ==> !clashes(held, new_keys, k),
{
    assert forall|k: int| 0 <= k < i implies !clashes(held, new_keys, k) by {
        assert(!held.contains(new_keys[k]));
        if exists|j: int| 0 <= j < k && new_keys[j] == new_keys[k] {
            let j = choose|j: int| 0 <= j < k && new_keys[j] == new_keys[k];
            assert(new_keys[j] != new_keys[k]);
        }
    }
}

impl<H> HandlerCollection<H> {
    pub open spec fn keys(&self) -> Seq<Seq<char>> {
        keys_of(self.handlers@)
    }

    /// At most one handler per message type.
    pub open spec fn wf(&self) -> bool {
        &&& self.keys().no_duplicates()
        &&& self.handlers@.len() <= usize::MAX
    }

    /// The steps that handle a message of type `t`: the handler for `t`, if any,
    /// then the catchall, if any.
    pub open spec fn steps_for(&self, t: Seq<char>) -> Seq<DispatchStep> {
        let typed = if self.keys().contains(t) {
            seq![DispatchStep::Handler(self.keys().index_of(t) as usize)]
        } else {
            Seq::empty()
        };
        let fallback = if self.catchall is Some {
            seq![DispatchStep::Catchall]
        } else {
            Seq::empty()
        };
        typed + fallback
    }

    pub fn new() -> (r: Self)
        ensures
            r.handlers@.len() == 0,
            r.catchall is None,
            r.wf(),
    {
        HandlerCollection { handlers: Vec::new(), catchall: None }
    }

    /// Where the handler for `message_type` stands, if there is one.
    pub fn find(&self, message_type: &str) -> (r: Option<usize>)
        ensures
            match r {
                Some(i) => i < self.handlers@.len() && self.keys()[i as int] == message_type@,
                None => !self.keys().contains(message_type@),
            },
    {
        let key = message_type.to_owned();
        let mut i: usize = 0;
        while i < self.handlers.len()
            invariant
                i <= self.handlers@.len(),
                key@ == message_type@,
                forall|j: int| 0 <= j < i ==> self.keys()[j] != message_type@,
            decreases self.handlers@.len() - i,
        {
            if self.handlers[i].0 == key {
                return Some(i);
            }
            i = i + 1;
        }
        None
    }

    pub fn contains(&self, message_type: &str) -> (r: bool)
        ensures
            r == self.keys().contains(message_type@),
    {
        self.find(message_type).is_some()
    }

    /// Adds `handler` for `message_type`; where that type has a handler already,
    /// fails and leaves the collection as it was.
    pub fn insert(&mut self, message_type: String, handler: H) -> (r: Result<(), DuplicateHandlerError>)
        requires
            old(self).wf(),
        ensures
            final(self).wf(),
            old(self).keys().contains(message_type@) <==> r is Err,
            r matches Err(e) ==> e.0@ == message_type@ && *final(self) == *old(self),
            r is Ok ==> final(self).handlers@ == old(self).handlers@.push((message_type, handler))
                && final(self).catchall == old(self).catchall,
    {
        if self.contains(message_type.as_str()) {
            return Err(DuplicateHandlerError::new(message_type));
        }
        let ghost before = self.handlers@;
        self.handlers.push((message_type, handler));
        let _ = self.handlers.len();
        proof {
            assert(self.keys() =~= keys_of(before).push(message_type@));
            assert forall|i: int, j: int|
                0 <= i < self.keys().len() && 0 <= j < self.keys().len() && i != j implies self.keys()[i]
                != self.keys()[j] by {
                if i < before.len() && j < before.len() {
                    assert(keys_of(before)[i] != keys_of(before)[j]);
                } else if i < before.len() {
                    assert(keys_of(before).contains(keys_of(before)[i]));
                } else {
                    assert(keys_of(before).contains(keys_of(before)[j]));
                }
            }
        }
        Ok(())
    }

    /// Adds all of `entries`, or none: fails where one of their types has a handler
    /// already or comes twice among them, naming the first such type.
    pub fn extend(&mut self, entries: Vec<(String, H)>) -> (r: Result<(), DuplicateHandlerError>)
        requires
            old(self).wf(),
        ensures
            final(self).wf(),
            r is Ok <==> (keys_of(entries@).no_duplicates() && forall|i: int|
                0 <= i < entries@.len() ==> !old(self).keys().contains(
                    #[trigger] keys_of(entries@)[i],
                )),
            r matches Err(e) ==> *final(self) == *old(self) && exists|i: int|
                first_clash(old(self).keys(), keys_of(entries@), i) && #[trigger] keys_of(entries@)[i]
                    == e.0@,
            r is Ok ==> final(self).handlers@ == old(self).handlers@ + entries@
                && final(self).catchall == old(self).catchall,
    {
        let ghost new_keys = keys_of(entries@);
        let mut i: usize = 0;
        while i < entries.len()
            invariant
                i <= entries@.len(),
                new_keys == keys_of(entries@),
                *self == *old(self),
                self.wf(),
                forall|k: int| 0 <= k < i ==> !self.keys().contains(#[trigger] new_keys[k]),
                forall|k: int, l: int| 0 <= k < l < i ==> new_keys[k] != new_keys[l],
            decreases entries@.len() - i,
        {
            assert(new_keys[i as int] == entries@[i as int].0@);
            proof {
                lemma_prefix_clean(self.keys(), new_keys, i as int);
            }
            if self.contains(entries[i].0.as_str()) {
                assert(first_clash(self.keys(), new_keys, i as int));
                return Err(DuplicateHandlerError::new(entries[i].0.clone()));
            }
            let mut j: usize = 0;
            while j < i
                invariant
                    j <= i < entries@.len(),
                    new_keys == keys_of(entries@),
                    *self == *old(self),
                    self.wf(),
                    forall|l: int| 0 <= l < j ==> new_keys[l] != new_keys[i as int],
                    forall|k: int| 0 <= k < i ==> !clashes(self.keys(), new_keys, k),
                    !self.keys().contains(new_keys[i as int]),
                decreases i - j,
            {
                if entries[j].0 == entries[i].0 {
                    assert(new_keys[j as int] == new_keys[i as int]);
                    assert(!new_keys.no_duplicates());
                    assert(first_clash(self.keys(), new_keys, i as int));
                    return Err(DuplicateHandlerError::new(entries[i].0.clone()));
                }
                j = j + 1;
            }
            i = i + 1;
        }
        let ghost before = self.handlers@;
        let mut entries = entries;
        self.handlers.append(&mut entries);
        let _ = self.handlers.len();
        proof {
            assert(self.keys() =~= keys_of(before) + new_keys);
            assert forall|a: int, b: int|
                0 <= a < self.keys().len() && 0 <= b < self.keys().len() && a != b implies self.keys()[a]
                != self.keys()[b] by {
                let n = before.len() as int;
                if a < n && b < n {
                    assert(keys_of(before)[a] != keys_of(before)[b]);
                } else if a >= n && b >= n {
                    if a < b {
                        assert(new_keys[a - n] != new_keys[b - n]);
                    } else {
                        assert(new_keys[b - n] != new_keys[a - n]);
                    }
                } else if a < n {
                    assert(!keys_of(before).contains(new_keys[b - n]));
                    assert(keys_of(before)[a] == self.keys()[a]);
                } else {
                    assert(!keys_of(before).contains(new_keys[a - n]));
                    assert(keys_of(before)[b] == self.keys()[b]);
                }
            }
        }
        Ok(())
    }

    /// Sets the handler that takes every message after the typed one.
    pub fn set_catchall(&mut self, catchall: H)
        ensures
            final(self).handlers == old(self).handlers,
            final(self).catchall == Some(catchall),
    {
        self.catchall = Some(catchall);
    }

    /// The steps that handle a message of type `message_type`: the handler whose
    /// key is that type, if any, and then the catchall, if any.
    pub fn dispatch_plan(&self, message_type: &str) -> (r: Vec<DispatchStep>)
        requires
            self.wf(),
        ensures
            r@ == self.steps_for(message_type@),
    {
        let mut steps: Vec<DispatchStep> = Vec::new();
        match self.find(message_type) {
            Some(i) => {
                proof {
                    let keys = self.keys();
                    assert(keys[i as int] == message_type@);
                    let j = keys.index_of(message_type@);
                    assert(0 <= j < keys.len() && keys[j] == message_type@);
                    assert(j == i);
                }
                steps.push(DispatchStep::Handler(i));
            },
            None => {},
        }
        if self.catchall.is_some() {
            steps.push(DispatchStep::Catchall);
        }
        assert(steps@ =~= self.steps_for(message_type@));
        steps
    }

    pub fn handler(&self, index: usize) -> (r: &H)
        requires
            index < self.handlers@.len(),
        ensures
            *r == self.handlers@[index as int].1,
    {
        &self.handlers[index].1
    }

    pub fn catchall(&self) -> (r: Option<&H>)
        ensures
            match self.catchall {
                Some(c) => r == Some(&c),
                None => r is None,
            },
    {
        self.catchall.as_ref()
    }
}

/// A message reaches only the handler declared for its type, and the catchall
/// handles it after that one.
pub proof fn lemma_routing<H>(collection: HandlerCollection<H>, t: Seq<char>)
    requires
        collection.wf(),
    ensures
        forall|k: int|
            0 <= k < collection.steps_for(t).len() ==> (#[trigger] collection.steps_for(t)[k]
                matches DispatchStep::Handler(i) ==> k == 0 && collection.keys()[i as int] == t),
        collection.steps_for(t).len() > 0 && collection.steps_for(t)[0] is Handler
            <==> collection.keys().contains(t),
        collection.catchall is Some <==> collection.steps_for(t).len() > 0
            && collection.steps_for(t).last() is Catchall,
{
    let keys = collection.keys();
    if keys.contains(t) {
        let i = keys.index_of(t);
        assert(keys[i] == t);
        assert((i as usize) as int == i);
    }
}

/// A handler function for the messages of one type.
pub struct FunctionHandler<P, R, F> {
    pub func: F,
    pub message_type: String,
    pub params_marker: PhantomData<P>,
    pub return_marker: PhantomData<R>,
}

impl<P, R, F> FunctionHandler<P, R, F> {
    pub fn new(func: F, message_type: String) -> (r: Self)
        ensures
            r.func == func,
            r.message_type == message_type,
    {
        FunctionHandler {
            func,
            message_type,
            params_marker: PhantomData,
            return_marker: PhantomData,
        }
    }

    /// The type of the messages it handles.
    pub fn message_type(&self) -> (r: String)
        ensures
            r == self.message_type,
    {
        self.message_type.clone()
    }

    /// Whether a message of the given type is handled by it; the others are left
    /// alone, unread.
    pub fn handles(&self, message_type: &str) -> (r: bool)
        ensures
            r == (self.message_type@ == message_type@),
    {
        self.message_type == message_type.to_owned()
    }
}

/// A handler function that takes every message, untyped.
pub struct CatchallFunctionHandler<P, R, F> {
    pub func: F,
    pub params_marker: PhantomData<P>,
    pub return_marker: PhantomData<R>,
}

impl<P, R, F> CatchallFunctionHandler<P, R, F> {
    pub fn new(func: F) -> (r: Self)
        ensures
            r.func == func,
    {
        CatchallFunctionHandler { func, params_marker: PhantomData, return_marker: PhantomData }
    }
}

} // verus!
