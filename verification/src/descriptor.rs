//! The channel descriptor builder: a pure derivation of the channel's display
//! name, its one-entry model-name mapping, and its two-entry model list from
//! the model identity, plus the JSON payload of the channel-creation call.

use vstd::prelude::*;
use vstd::string::*;
use crate::table::{KeyValue, RatioTable, json_object, push_json_object};
use crate::text::{chars_of, json_string, push_json_string, push_range, string_from_chars};

verus! {

/// The identifiers of the model being onboarded: the name the upstream
/// provider uses, the name the gateway exposes, and the provider's base URL.
#[derive(Debug)]
pub struct ModelIdentity {
    pub source_name: String,
    pub gateway_name: String,
    pub source_base_url: String,
}

impl ModelIdentity {
    pub open spec fn wf(self) -> bool {
        self.source_name@.len() > 0 && self.gateway_name@.len() > 0
    }
}

/// The base URL with a single leading scheme prefix removed.
pub open spec fn strip_scheme(s: Seq<char>) -> Seq<char> {
    if "https://"@.is_prefix_of(s) {
        s.skip(8)
    } else if "http://"@.is_prefix_of(s) {
        s.skip(7)
    } else {
        s
    }
}

/// The characters before the first `/`, or the whole sequence without one.
pub open spec fn before_slash(t: Seq<char>) -> Seq<char>
    decreases t.len(),
{
    if t.len() == 0 {
        t
    } else if t[0] == '/' {
        Seq::empty()
    } else {
        seq![t[0]] + before_slash(t.skip(1))
    }
}

/// The host segment of a base URL: scheme stripped, path dropped. A malformed
/// URL degrades to the raw string.
pub open spec fn host_of(s: Seq<char>) -> Seq<char> {
    before_slash(strip_scheme(s))
}

/// The channel's display name: `host source_name -> gateway_name`.
pub open spec fn display_name_of(url: Seq<char>, src: Seq<char>, gw: Seq<char>) -> Seq<char> {
    host_of(url) + seq![' '] + src + seq![' ', '-', '>', ' '] + gw
}

/// Scanning up to a stop point without a slash pins `before_slash`.
proof fn lemma_before_slash_take(t: Seq<char>, i: int)
    requires
        0 <= i <= t.len(),
        forall|j: int| 0 <= j < i ==> t[j] != '/',
        i == t.len() || t[i] == '/',
    ensures
        before_slash(t) == t.take(i),
    decreases t.len(),
{
    if t.len() == 0 {
        assert(t.take(0) =~= t);
    } else if t[0] == '/' {
        assert(i == 0);
        assert(t.take(0) =~= Seq::<char>::empty());
    } else {
        assert(i >= 1);
        assert(forall|j: int| 0 <= j < i - 1 ==> #[trigger] t.skip(1)[j] != '/');
        lemma_before_slash_take(t.skip(1), i - 1);
        assert(seq![t[0]] + t.skip(1).take(i - 1) =~= t.take(i));
    }
}

/// Whether `p` is a prefix of `v`.
fn begins_with(v: &Vec<char>, p: &Vec<char>) -> (r: bool)
    ensures
        r == p@.is_prefix_of(v@),
{
    if p.len() > v.len() {
        return false;
    }
    let mut i: usize = 0;
    while i < p.len()
        invariant
            i <= p@.len() <= v@.len(),
            forall|j: int| 0 <= j < i ==> v@[j] == p@[j],
        decreases p@.len() - i,
    {
        if v[i] != p[i] {
            assert(!p@.is_prefix_of(v@));
            return false;
        }
        i = i + 1;
    }
    assert(p@.is_prefix_of(v@)) by {
        assert(p@ =~= v@.take(p@.len() as int));
    }
    true
}

/// The host segment of the base URL, as characters.
#[verifier::loop_isolation(false)]
pub fn host_chars(url: &Vec<char>) -> (h: Vec<char>)
    ensures
        h@ == host_of(url@),
{
    proof {
        reveal_strlit("https://");
        reveal_strlit("http://");
    }
    let https: Vec<char> = chars_of("https://");
    let http: Vec<char> = chars_of("http://");
    let start: usize = if begins_with(url, &https) {
        8
    } else if begins_with(url, &http) {
        7
    } else {
        0
    };
    let ghost t = strip_scheme(url@);
    proof {
        assert(url@.skip(start as int) =~= t);
    }
    let mut h: Vec<char> = Vec::new();
    let mut i: usize = start;
    let n: usize = url.len();
    while i < n
        invariant
            start <= i <= n,
            n == url@.len(),
            h@ == t.take(i - start),
            forall|j: int| 0 <= j < i - start ==> t[j] != '/',
        decreases n - i,
    {
        let c = url[i];
        if c == '/' {
            proof {
                lemma_before_slash_take(t, i - start);
            }
            return h;
        }
        h.push(c);
        i = i + 1;
        proof {
            assert(h@ =~= t.take(i - start));
        }
    }
    proof {
        lemma_before_slash_take(t, n - start);
        assert(t.take(n - start) =~= t);
    }
    h
}

/// The derived channel descriptor: built once and consumed by the
/// channel-creation call.
#[derive(Debug)]
pub struct ChannelDescriptor {
    pub display_name: String,
    pub model_mapping: Vec<(String, String)>,
    pub model_list: Vec<String>,
}

/// Builds the descriptor. The model mapping always has exactly the one entry
/// `gateway_name -> source_name`, and the model list is always exactly
/// `[source_name, gateway_name]`.
pub fn build_descriptor(id: &ModelIdentity) -> (d: ChannelDescriptor)
    ensures
        d.display_name@ == display_name_of(
            id.source_base_url@,
            id.source_name@,
            id.gateway_name@,
        ),
        d.model_mapping@.len() == 1,
        d.model_mapping@[0].0@ == id.gateway_name@,
        d.model_mapping@[0].1@ == id.source_name@,
        d.model_list@.len() == 2,
        d.model_list@[0]@ == id.source_name@,
        d.model_list@[1]@ == id.gateway_name@,
{
    let url = chars_of(id.source_base_url.as_str());
    let host = host_chars(&url);
    let mut name: Vec<char> = Vec::new();
    push_range(&mut name, &host, 0, host.len());
    name.push(' ');
    let src = chars_of(id.source_name.as_str());
    push_range(&mut name, &src, 0, src.len());
    name.push(' ');
    name.push('-');
    name.push('>');
    name.push(' ');
    let gw = chars_of(id.gateway_name.as_str());
    push_range(&mut name, &gw, 0, gw.len());
    proof {
        assert(host@.subrange(0, host@.len() as int) =~= host@);
        assert(src@.subrange(0, src@.len() as int) =~= src@);
        assert(gw@.subrange(0, gw@.len() as int) =~= gw@);
        assert(name@ =~= display_name_of(id.source_base_url@, id.source_name@, id.gateway_name@));
    }
    let display_name = string_from_chars(&name);
    let mut model_mapping: Vec<(String, String)> = Vec::new();
    model_mapping.push((id.gateway_name.clone(), id.source_name.clone()));
    let mut model_list: Vec<String> = Vec::new();
    model_list.push(id.source_name.clone());
    model_list.push(id.gateway_name.clone());
    ChannelDescriptor { display_name, model_mapping, model_list }
}

/// The fixed provider-specific configuration blob of the creation payload.
pub open spec fn config_blob() -> Seq<char> {
    "{\"region\":\"\",\"sk\":\"\",\"ak\":\"\",\"user_id\":\"\",\"vertex_ai_project_id\":\"\",\"vertex_ai_adc\":\"\"}"@
}

/// The model-name mapping of the creation payload, as a JSON object text:
/// one entry, `gateway_name` to `source_name`.
pub open spec fn mapping_json(src: Seq<char>, gw: Seq<char>) -> Seq<char> {
    json_object(seq![(gw, json_string(src))])
}

/// The comma-joined model list of the creation payload.
pub open spec fn models_field(src: Seq<char>, gw: Seq<char>) -> Seq<char> {
    src + seq![','] + gw
}

/// The entries of the channel-creation payload, in order: the descriptor
/// fields plus the fixed defaults (type code 50, empty system prompt, the
/// `default` group, the fixed provider configuration).
pub open spec fn payload_entries(
    url: Seq<char>,
    src: Seq<char>,
    gw: Seq<char>,
    token: Seq<char>,
) -> Seq<(Seq<char>, Seq<char>)> {
    seq![
        ("name"@, json_string(display_name_of(url, src, gw))),
        ("type"@, seq!['5', '0']),
        ("key"@, json_string(token)),
        ("base_url"@, json_string(url)),
        ("other"@, json_string(Seq::<char>::empty())),
        ("model_mapping"@, json_string(mapping_json(src, gw))),
        ("system_prompt"@, json_string(Seq::<char>::empty())),
        ("models"@, json_string(models_field(src, gw))),
        ("groups"@, seq!['['] + json_string("default"@) + seq![']']),
        ("group"@, json_string("default"@)),
        ("config"@, json_string(config_blob())),
    ]
}

/// The complete JSON payload of the channel-creation call.
pub open spec fn channel_payload_spec(
    url: Seq<char>,
    src: Seq<char>,
    gw: Seq<char>,
    token: Seq<char>,
) -> Seq<char> {
    json_object(payload_entries(url, src, gw, token))
}

fn keyed(key: &str, value: Vec<char>) -> (e: KeyValue)
    ensures
        e@ == (key@, value@),
{
    KeyValue { key: String::from_str(key), value: string_from_chars(&value) }
}

/// Builds the JSON payload of the channel-creation call.
pub fn build_channel_payload(id: &ModelIdentity, source_token: &String) -> (p: String)
    ensures
        p@ == channel_payload_spec(
            id.source_base_url@,
            id.source_name@,
            id.gateway_name@,
            source_token@,
        ),
{
    let url = chars_of(id.source_base_url.as_str());
    let src = chars_of(id.source_name.as_str());
    let gw = chars_of(id.gateway_name.as_str());
    let token = chars_of(source_token.as_str());
    let empty: Vec<char> = Vec::new();

    let descriptor = build_descriptor(id);
    let display = chars_of(descriptor.display_name.as_str());

    let mut name_v: Vec<char> = Vec::new();
    push_json_string(&mut name_v, &display);

    let mut type_v: Vec<char> = Vec::new();
    type_v.push('5');
    type_v.push('0');

    let mut key_v: Vec<char> = Vec::new();
    push_json_string(&mut key_v, &token);

    let mut base_v: Vec<char> = Vec::new();
    push_json_string(&mut base_v, &url);

    let mut other_v: Vec<char> = Vec::new();
    push_json_string(&mut other_v, &empty);

    let mut inner_map: Vec<char> = Vec::new();
    let mut src_json: Vec<char> = Vec::new();
    push_json_string(&mut src_json, &src);
    let mapping_table = RatioTable {
        entries: vec![KeyValue { key: id.gateway_name.clone(), value: string_from_chars(&src_json) }],
    };
    push_json_object(&mut inner_map, &mapping_table);
    proof {
        assert(mapping_table@ =~= seq![(id.gateway_name@, json_string(id.source_name@))]);
    }
    let mut mapping_v: Vec<char> = Vec::new();
    push_json_string(&mut mapping_v, &inner_map);

    let mut prompt_v: Vec<char> = Vec::new();
    push_json_string(&mut prompt_v, &empty);

    let mut models_c: Vec<char> = Vec::new();
    push_range(&mut models_c, &src, 0, src.len());
    models_c.push(',');
    push_range(&mut models_c, &gw, 0, gw.len());
    proof {
        assert(src@.subrange(0, src@.len() as int) =~= src@);
        assert(gw@.subrange(0, gw@.len() as int) =~= gw@);
        assert(models_c@ =~= models_field(id.source_name@, id.gateway_name@));
    }
    let mut models_v: Vec<char> = Vec::new();
    push_json_string(&mut models_v, &models_c);

    let default_c = chars_of("default");
    let mut groups_v: Vec<char> = Vec::new();
    groups_v.push('[');
    push_json_string(&mut groups_v, &default_c);
    groups_v.push(']');
    proof {
        assert(groups_v@ =~= seq!['['] + json_string("default"@) + seq![']']);
    }

    let mut group_v: Vec<char> = Vec::new();
    push_json_string(&mut group_v, &default_c);

    let config_c = chars_of(
        "{\"region\":\"\",\"sk\":\"\",\"ak\":\"\",\"user_id\":\"\",\"vertex_ai_project_id\":\"\",\"vertex_ai_adc\":\"\"}",
    );
    let mut config_v: Vec<char> = Vec::new();
    push_json_string(&mut config_v, &config_c);

    let mut entries: Vec<KeyValue> = Vec::new();
    entries.push(keyed("name", name_v));
    entries.push(keyed("type", type_v));
    entries.push(keyed("key", key_v));
    entries.push(keyed("base_url", base_v));
    entries.push(keyed("other", other_v));
    entries.push(keyed("model_mapping", mapping_v));
    entries.push(keyed("system_prompt", prompt_v));
    entries.push(keyed("models", models_v));
    entries.push(keyed("groups", groups_v));
    entries.push(keyed("group", group_v));
    entries.push(keyed("config", config_v));
    let payload_table = RatioTable { entries };
    proof {
        assert(payload_table@ =~~= payload_entries(
            id.source_base_url@,
            id.source_name@,
            id.gateway_name@,
            source_token@,
        ));
    }
    let mut out: Vec<char> = Vec::new();
    push_json_object(&mut out, &payload_table);
    string_from_chars(&out)
}

} // verus!
