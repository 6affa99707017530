//! The properties that a stream is created with.
use crate::identity::{
    PW_CAPTURE_NODE_DESC, PW_CAPTURE_NODE_NAME, PW_LINK_GROUP, PW_NODE_GROUP,
};
use crate::text::{decimal, law_decimal_round_trip, push_decimal};
use vstd::prelude::*;

verus! {

/// One property.
pub struct Property {
    pub key: String,
    pub value: String,
}

/// A list of properties.
pub struct StreamProperties {
    pub entries: Vec<Property>,
}

/// A property as plain text: key and value.
pub type PropertyText = (Seq<char>, Seq<char>);

impl View for Property {
    type V = PropertyText;

    open spec fn view(&self) -> PropertyText {
        (self.key@, self.value@)
    }
}

impl View for StreamProperties {
    type V = Seq<PropertyText>;

    open spec fn view(&self) -> Seq<PropertyText> {
        self.entries@.map_values(|p: Property| p@)
    }
}

/// The value of the first property with the key.
pub open spec fn lookup(properties: Seq<PropertyText>, key: Seq<char>) -> Option<Seq<char>>
    decreases properties.len(),
{
    if properties.len() == 0 {
        None
    } else if properties[0].0 == key {
        Some(properties[0].1)
    } else {
        lookup(properties.skip(1), key)
    }
}

/// The latency of a buffer of `buffer_size` frames at the nominal rate, as a fraction of a
/// second.
pub open spec fn latency(buffer_size: u32) -> Seq<char> {
    decimal(buffer_size as nat) + "/48000"@
}

/// The properties of the capture stream. A buffer size of zero leaves the latency to the
/// host.
pub open spec fn capture_properties(buffer_size: u32) -> Seq<PropertyText> {
    let fixed = seq![
        ("media.type"@, "Audio"@),
        ("media.category"@, "Duplex"@),
        ("media.role"@, "DSP"@),
        ("media.class"@, "Audio/Sink"@),
        ("node.name"@, PW_CAPTURE_NODE_NAME@),
        ("node.description"@, PW_CAPTURE_NODE_DESC@),
        ("node.group"@, PW_NODE_GROUP@),
        ("node.link-group"@, PW_LINK_GROUP@),
    ];
    if buffer_size == 0 {
        fixed
    } else {
        fixed.push(("node.latency"@, latency(buffer_size)))
    }
}

/// Writes the latency of a buffer at the nominal rate.
pub fn latency_string(buffer_size: u32) -> (s: String)
    ensures
        s@ == latency(buffer_size),
{
    let mut s = String::new();
    push_decimal(&mut s, buffer_size);
    s.append("/48000");
    assert(s@ =~= latency(buffer_size));
    s
}

impl StreamProperties {
    /// Adds a property at the end.
    fn add(&mut self, key: &str, value: &str)
        ensures
            final(self)@ == old(self)@.push((key@, value@)),
    {
        self.entries.push(Property { key: key.to_owned(), value: value.to_owned() });
        assert(self@ =~= old(self)@.push((key@, value@)));
    }

    /// The value of the first property with the key.
    pub fn get(&self, key: &str) -> (value: Option<&str>)
        ensures
            match value {
                Some(v) => lookup(self@, key@) == Some(v@),
                None => lookup(self@, key@) is None,
            },
    {
        let wanted = key.to_owned();
        let mut i: usize = 0;
        assert(self@.skip(0) =~= self@);
        while i < self.entries.len()
            invariant
                i <= self.entries.len(),
                wanted@ == key@,
                lookup(self@, key@) == lookup(self@.skip(i as int), key@),
            decreases self.entries.len() - i,
        {
            proof {
                assert(self@.skip(i as int)[0] == self@[i as int]);
                assert(self@.skip(i as int).skip(1) =~= self@.skip(i + 1));
            }
            if self.entries[i].key == wanted {
                return Some(self.entries[i].value.as_str());
            }
            i = i + 1;
        }
        None
    }
}

/// The properties of the capture stream, for a buffer of `buffer_size` frames.
pub fn create_capture_properties(buffer_size: u32) -> (properties: StreamProperties)
    ensures
        properties@ == capture_properties(buffer_size),
{
    let mut properties = StreamProperties { entries: Vec::new() };
    properties.add("media.type", "Audio");
    properties.add("media.category", "Duplex");
    properties.add("media.role", "DSP");
    properties.add("media.class", "Audio/Sink");
    properties.add("node.name", PW_CAPTURE_NODE_NAME);
    properties.add("node.description", PW_CAPTURE_NODE_DESC);
    properties.add("node.group", PW_NODE_GROUP);
    properties.add("node.link-group", PW_LINK_GROUP);
    if buffer_size != 0 {
        let latency = latency_string(buffer_size);
        properties.add("node.latency", latency.as_str());
    }
    assert(properties@ =~= capture_properties(buffer_size));
    properties
}

/// The capture stream asks for a latency exactly if the buffer size is not zero, and then
/// for that of the buffer size.
pub proof fn law_latency_property(buffer_size: u32)
    ensures
        lookup(capture_properties(buffer_size), "node.latency"@) == if buffer_size == 0 {
            None
        } else {
            Some(latency(buffer_size))
        },
{
    reveal_strlit("media.type");
    reveal_strlit("media.category");
    reveal_strlit("media.role");
    reveal_strlit("media.class");
    reveal_strlit("node.name");
    reveal_strlit("node.description");
    reveal_strlit("node.group");
    reveal_strlit("node.link-group");
    reveal_strlit("node.latency");
    reveal_with_fuel(lookup, 2);
    let key = "node.latency"@;
    let properties = capture_properties(buffer_size);
    assert forall|i: int| 0 <= i < 8 implies (#[trigger] properties[i]).0 != key by {
        assert(properties[i].0.len() != key.len());
    }
    lemma_lookup_skips(properties, key, 8);
}

/// Properties in front that have another key do not matter for a lookup.
pub(crate) proof fn lemma_lookup_skips(properties: Seq<PropertyText>, key: Seq<char>, n: nat)
    requires
        n <= properties.len(),
        forall|i: int| 0 <= i < n ==> (#[trigger] properties[i]).0 != key,
    ensures
        lookup(properties, key) == lookup(properties.skip(n as int), key),
    decreases n,
{
    if n == 0 {
        assert(properties.skip(0) =~= properties);
    } else {
        assert(properties[0].0 != key);
        assert forall|i: int| 0 <= i < n - 1 implies (#[trigger] properties.skip(1)[i]).0 != key by {
            assert(properties[i + 1].0 != key);
        }
        lemma_lookup_skips(properties.skip(1), key, (n - 1) as nat);
        assert(properties.skip(1).skip(n - 1) =~= properties.skip(n as int));
    }
}

/// Buffers of different sizes have different latencies.
pub proof fn law_latency_tells_sizes_apart(size: u32, other: u32)
    requires
        latency(size) == latency(other),
    ensures
        size == other,
{
    let a = decimal(size as nat);
    let b = decimal(other as nat);
    assert(latency(size).len() == a.len() + "/48000"@.len());
    assert(latency(other).len() == b.len() + "/48000"@.len());
    assert(a =~= latency(size).take(a.len() as int));
    assert(b =~= latency(other).take(b.len() as int));
    law_decimal_round_trip(size as nat);
    law_decimal_round_trip(other as nat);
}

} // verus!
