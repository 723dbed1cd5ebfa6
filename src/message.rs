use vstd::prelude::*;
use crate::stream_name::StreamName;

verus! {

/// What the store keeps beside a message: the well-known keys, each optional, and
/// the other keys with their values as JSON text.
#[derive(Debug)]
pub struct Metadata {
    pub stream_name: Option<String>,
    pub position: Option<i64>,
    pub global_position: Option<i64>,
    pub time: Option<String>,
    pub causation_message_stream_name: Option<String>,
    pub causation_message_position: Option<i64>,
    pub causation_message_global_position: Option<i64>,
    pub correlation_stream_name: Option<String>,
    pub reply_stream_name: Option<String>,
    pub extra: Vec<(String, String)>,
}

/// A message as the store holds it: its type, its data as JSON text, its metadata.
#[derive(Debug)]
pub struct MessageData {
    pub message_type: String,
    pub data: String,
    pub metadata: Metadata,
}

fn copy_text(s: &Option<String>) -> (r: Option<String>)
    ensures
        r == *s,
{
    match s {
        Some(t) => Some(t.clone()),
        None => None,
    }
}

/// The keys that have a field of their own.
pub open spec fn well_known(key: Seq<char>) -> bool {
    ||| key == "stream_name"@
    ||| key == "position"@
    ||| key == "global_position"@
    ||| key == "time"@
    ||| key == "causation_message_stream_name"@
    ||| key == "causation_message_position"@
    ||| key == "causation_message_global_position"@
    ||| key == "correlation_stream_name"@
    ||| key == "reply_stream_name"@
}

/// The keys of the other entries.
pub open spec fn extra_keys(extra: Seq<(String, String)>) -> Seq<Seq<char>> {
    extra.map_values(|e: (String, String)| e.0@)
}

impl Metadata {
    /// Each other key comes once, and none of them is a well-known key.
    pub open spec fn wf(&self) -> bool {
        &&& extra_keys(self.extra@).no_duplicates()
        &&& forall|i: int| 0 <= i < self.extra@.len() ==> !well_known(#[trigger] extra_keys(self.extra@)[i])
    }

    /// No key is set.
    pub open spec fn is_blank(&self) -> bool {
        &&& self.stream_name is None
        &&& self.position is None
        &&& self.global_position is None
        &&& self.time is None
        &&& self.causation_message_stream_name is None
        &&& self.causation_message_position is None
        &&& self.causation_message_global_position is None
        &&& self.correlation_stream_name is None
        &&& self.reply_stream_name is None
        &&& self.extra@.len() == 0
    }

    /// `self` with the keys that belong to one stored message taken out: the stream
    /// name, the two positions and the time. Causation, correlation, reply and the
    /// other keys stay.
    pub open spec fn followed(self) -> Metadata {
        Metadata { stream_name: None, position: None, global_position: None, time: None, ..self }
    }

    pub fn new() -> (r: Self)
        ensures
            r.is_blank(),
            r.wf(),
    {
        Metadata {
            stream_name: None,
            position: None,
            global_position: None,
            time: None,
            causation_message_stream_name: None,
            causation_message_position: None,
            causation_message_global_position: None,
            correlation_stream_name: None,
            reply_stream_name: None,
            extra: Vec::new(),
        }
    }

    /// The metadata that a message derived from one with `metadata` starts from.
    pub fn follow(metadata: Metadata) -> (r: Self)
        ensures
            r == metadata.followed(),
    {
        Metadata { stream_name: None, position: None, global_position: None, time: None, ..metadata }
    }

    pub fn position(&self) -> (r: Option<i64>)
        ensures
            r == self.position,
    {
        self.position
    }

    pub fn set_position(self, position: i64) -> (r: Self)
        ensures
            r == (Metadata { position: Some(position), ..self }),
    {
        Metadata { position: Some(position), ..self }
    }

    pub fn global_position(&self) -> (r: Option<i64>)
        ensures
            r == self.global_position,
    {
        self.global_position
    }

    pub fn set_global_position(self, global_position: i64) -> (r: Self)
        ensures
            r == (Metadata { global_position: Some(global_position), ..self }),
    {
        Metadata { global_position: Some(global_position), ..self }
    }

    pub fn stream_name(&self) -> (r: Option<StreamName>)
        ensures
            match self.stream_name {
                Some(s) => r matches Some(n) && n.0 == s,
                None => r is None,
            },
    {
        match &self.stream_name {
            Some(s) => Some(StreamName(s.clone())),
            None => None,
        }
    }

    pub fn set_stream_name(self, stream_name: StreamName) -> (r: Self)
        ensures
            r == (Metadata { stream_name: Some(stream_name.0), ..self }),
    {
        Metadata { stream_name: Some(stream_name.0), ..self }
    }

    pub fn time(&self) -> (r: Option<String>)
        ensures
            r == self.time,
    {
        copy_text(&self.time)
    }

    pub fn set_time(self, time: String) -> (r: Self)
        ensures
            r == (Metadata { time: Some(time), ..self }),
    {
        Metadata { time: Some(time), ..self }
    }

    pub fn causation_message_stream_name(&self) -> (r: Option<String>)
        ensures
            r == self.causation_message_stream_name,
    {
        copy_text(&self.causation_message_stream_name)
    }

    pub fn set_causation_message_stream_name(self, stream_name: &str) -> (r: Self)
        ensures
            r.causation_message_stream_name matches Some(s) && s@ == stream_name@,
            r == (Metadata { causation_message_stream_name: r.causation_message_stream_name, ..self }),
    {
        Metadata { causation_message_stream_name: Some(stream_name.to_owned()), ..self }
    }

    pub fn causation_message_position(&self) -> (r: Option<i64>)
        ensures
            r == self.causation_message_position,
    {
        self.causation_message_position
    }

    pub fn set_causation_message_position(self, position: i64) -> (r: Self)
        ensures
            r == (Metadata { causation_message_position: Some(position), ..self }),
    {
        Metadata { causation_message_position: Some(position), ..self }
    }

    pub fn causation_message_global_position(&self) -> (r: Option<i64>)
        ensures
            r == self.causation_message_global_position,
    {
        self.causation_message_global_position
    }

    pub fn set_causation_message_global_position(self, global_position: i64) -> (r: Self)
        ensures
            r == (Metadata {
                causation_message_global_position: Some(global_position),
                ..self
            }),
    {
        Metadata { causation_message_global_position: Some(global_position), ..self }
    }

    pub fn correlation_stream_name(&self) -> (r: Option<String>)
        ensures
            r == self.correlation_stream_name,
    {
        copy_text(&self.correlation_stream_name)
    }

    pub fn set_correlation_stream_name(self, stream_name: &str) -> (r: Self)
        ensures
            r.correlation_stream_name matches Some(s) && s@ == stream_name@,
            r == (Metadata { correlation_stream_name: r.correlation_stream_name, ..self }),
    {
        Metadata { correlation_stream_name: Some(stream_name.to_owned()), ..self }
    }

    pub fn reply_stream_name(&self) -> (r: Option<String>)
        ensures
            r == self.reply_stream_name,
    {
        copy_text(&self.reply_stream_name)
    }

    pub fn set_reply_stream_name(self, stream_name: &str) -> (r: Self)
        ensures
            r.reply_stream_name matches Some(s) && s@ == stream_name@,
            r == (Metadata { reply_stream_name: r.reply_stream_name, ..self }),
    {
        Metadata { reply_stream_name: Some(stream_name.to_owned()), ..self }
    }

    /// Sets a key other than the well-known ones to `value`, JSON text: replaces its
    /// value where the key is set already, else adds it.
    pub fn set(self, key: String, value: String) -> (r: Self)
        requires
            self.wf(),
            !well_known(key@),
        ensures
            r.wf(),
            r == (Metadata { extra: r.extra, ..self }),
            extra_keys(self.extra@).contains(key@) ==> r.extra@ == self.extra@.update(
                extra_keys(self.extra@).index_of(key@),
                (key, value),
            ),
            !extra_keys(self.extra@).contains(key@) ==> r.extra@ == self.extra@.push((key, value)),
    {
        let mut metadata = self;
        let ghost keys = extra_keys(metadata.extra@);
        let mut i: usize = 0;
        while i < metadata.extra.len()
            invariant
                i <= metadata.extra@.len(),
                metadata == self,
                metadata.wf(),
                keys == extra_keys(metadata.extra@),
                forall|j: int| 0 <= j < i ==> keys[j] != key@,
            decreases metadata.extra@.len() - i,
        {
            if metadata.extra[i].0 == key {
                proof {
                    let k = keys.index_of(key@);
                    assert(keys[i as int] == key@);
                    assert(0 <= k < keys.len() && keys[k] == key@);
                    assert(k == i);
                }
                metadata.extra[i] = (key, value);
                proof {
                    assert(extra_keys(metadata.extra@) =~= keys);
                    assert(metadata.extra@.len() == keys.len());
                }
                return metadata;
            }
            i = i + 1;
        }
        let ghost before = metadata.extra@;
        metadata.extra.push((key, value));
        proof {
            assert(extra_keys(metadata.extra@) =~= keys.push(key@));
            assert forall|a: int, b: int|
                0 <= a < keys.len() + 1 && 0 <= b < keys.len() + 1 && a != b implies extra_keys(
                metadata.extra@,
            )[a] != extra_keys(metadata.extra@)[b] by {
                if a < keys.len() && b < keys.len() {
                    assert(keys[a] != keys[b]);
                }
            }
        }
        metadata
    }

    pub fn is_empty(&self) -> (r: bool)
        ensures
            r == self.is_blank(),
    {
        self.stream_name.is_none() && self.position.is_none() && self.global_position.is_none()
            && self.time.is_none() && self.causation_message_stream_name.is_none()
            && self.causation_message_position.is_none()
            && self.causation_message_global_position.is_none()
            && self.correlation_stream_name.is_none() && self.reply_stream_name.is_none()
            && self.extra.len() == 0
    }
}

impl Default for Metadata {
    fn default() -> (r: Self)
        ensures
            r.is_blank(),
    {
        Metadata::new()
    }
}

impl MessageData {
    pub fn new(message_type: String, data: String, metadata: Metadata) -> (r: Self)
        ensures
            r == (MessageData { message_type, data, metadata }),
    {
        MessageData { message_type, data, metadata }
    }

    /// The metadata of the message read from the store carries its positions.
    pub open spec fn is_recorded(&self) -> bool {
        &&& self.metadata.position is Some
        &&& self.metadata.global_position is Some
    }
}

} // verus!
