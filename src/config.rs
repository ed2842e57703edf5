//! The bridge's configuration and the identifiers derived for its cameras.

use crate::text::{ascii_lower_char, is_ascii_alnum, owned, same_text};
use vstd::prelude::*;

verus! {

#[derive(Debug, PartialEq, Clone)]
pub struct Config {
    pub system: ConfigSystem,
    pub camera: Vec<ConfigCamera>,
    pub mqtt: ConfigMqtt,
}

#[derive(Debug, PartialEq, Clone)]
pub struct ConfigSystem {
    pub log_level: String,
}

#[derive(Debug, PartialEq, Clone)]
pub struct ConfigCamera {
    /// Derived from `name`; see [`camera_identifier`].
    pub generated_id: String,
    pub name: String,
    pub address: String,
    pub port: Option<u16>,
    pub username: String,
    pub password: String,
}

#[derive(Debug, PartialEq, Clone)]
pub struct ConfigMqtt {
    pub address: String,
    pub port: u16,
    pub username: String,
    pub password: String,
    pub base_topic: String,
    pub home_assistant_topic: String,
}

impl ConfigCamera {
    pub fn identifier(&self) -> (r: &str)
        ensures
            r@ == self.generated_id@,
    {
        self.generated_id.as_str()
    }
}

/// Whether `c` is alphabetic or numeric in the Unicode sense.
pub uninterp spec fn unicode_alphanumeric(c: char) -> bool;

/// `char::is_alphanumeric`: alphabetic or numeric, which among ASCII characters
/// are exactly the letters and digits.
pub assume_specification[ char::is_alphanumeric ](c: char) -> (r: bool)
    ensures
        r == unicode_alphanumeric(c),
        (c as u32) < 128 ==> (r == is_ascii_alnum(c)),
;

/// Whether a character of a camera's name survives into its identifier.
pub open spec fn kept_in_identifier(c: char) -> bool {
    unicode_alphanumeric(c) || c == ' ' || c == '_'
}

/// The lowercase mapping of `c` (one or more characters).
pub uninterp spec fn unicode_lowercase(c: char) -> Seq<char>;

/// Relies on `char::to_lowercase`: the lowercase mapping of `c`, which for an
/// ASCII character is `to_ascii_lowercase`.
#[verifier::external_body]
fn lowercase(c: char) -> (r: String)
    ensures
        r@ == unicode_lowercase(c),
        (c as u32) < 128 ==> r@ == seq![ascii_lower_char(c)],
{
    c.to_lowercase().collect()
}

/// What a kept character becomes: a space becomes `_`, letters are lowercased.
pub open spec fn identifier_part(c: char) -> Seq<char> {
    if c == ' ' {
        seq!['_']
    } else {
        unicode_lowercase(c)
    }
}

/// The identifier derived from a camera's name.
pub open spec fn camera_identifier(name: Seq<char>) -> Seq<char>
    decreases name.len(),
{
    if name.len() == 0 {
        Seq::empty()
    } else {
        let prev = camera_identifier(name.drop_last());
        if kept_in_identifier(name.last()) {
            prev + identifier_part(name.last())
        } else {
            prev
        }
    }
}

/// Computes the identifier of a camera's name.
pub fn make_identifier(name: &str) -> (r: String)
    ensures
        r@ == camera_identifier(name@),
{
    let n = name.unicode_len();
    let mut out = String::new();
    let mut i: usize = 0;
    while i < n
        invariant
            n == name@.len(),
            i <= n,
            out@ == camera_identifier(name@.subrange(0, i as int)),
        decreases n - i,
    {
        let c = name.get_char(i);
        assert(name@.subrange(0, i + 1).drop_last() =~= name@.subrange(0, i as int));
        if c.is_alphanumeric() || c == ' ' || c == '_' {
            if c == ' ' {
                out.push('_');
                assert(identifier_part(c) =~= seq!['_']);
            } else {
                let l = lowercase(c);
                out.append(l.as_str());
            }
        }
        i = i + 1;
    }
    assert(name@.subrange(0, n as int) =~= name@);
    out
}

/// The identifiers of the cameras' names, in order.
pub open spec fn identifiers_of(cams: Seq<ConfigCamera>) -> Seq<Seq<char>> {
    Seq::new(cams.len(), |i: int| camera_identifier(cams[i].name@))
}

/// Whether the identifier at `j` repeats one before it.
pub open spec fn repeats_earlier(ids: Seq<Seq<char>>, j: int) -> bool {
    exists|i: int| 0 <= i < j && ids[i] == ids[j]
}

/// Whether all identifiers differ.
pub open spec fn all_distinct(ids: Seq<Seq<char>>) -> bool {
    forall|i: int, j: int| 0 <= i < j < ids.len() ==> ids[i] != ids[j]
}

pub open spec fn duplicate_message(name: Seq<char>, id: Seq<char>) -> Seq<char> {
    "Camera "@ + name + " has duplicate ID: "@ + id
}

/// Whether the cameras of `out` are those of `cfg` with their identifiers set.
pub open spec fn identifiers_assigned(cfg: Config, out: Config) -> bool {
    &&& out.system == cfg.system
    &&& out.mqtt == cfg.mqtt
    &&& out.camera@.len() == cfg.camera@.len()
    &&& forall|i: int|
        0 <= i < cfg.camera@.len() ==> {
            let (a, b) = (#[trigger] out.camera@[i], cfg.camera@[i]);
            &&& a.generated_id@ == camera_identifier(b.name@)
            &&& a.name == b.name
            &&& a.address == b.address
            &&& a.port == b.port
            &&& a.username == b.username
            &&& a.password == b.password
        }
}

/// Derives each camera's identifier from its name and checks that the
/// identifiers are unique. A repeated identifier is an error that names the
/// first camera whose identifier repeats an earlier one.
pub fn assign_camera_ids(cfg: Config) -> (r: Result<Config, String>)
    ensures
        r is Ok <==> all_distinct(identifiers_of(cfg.camera@)),
        r matches Ok(out) ==> identifiers_assigned(cfg, out),
        r matches Err(m) ==> exists|j: int|
            0 <= j < cfg.camera@.len() && repeats_earlier(identifiers_of(cfg.camera@), j) && (
            forall|k: int| 0 <= k < j ==> !repeats_earlier(identifiers_of(cfg.camera@), k))
                && m@ == duplicate_message(cfg.camera@[j].name@, identifiers_of(cfg.camera@)[j]),
{
    let ghost ids = identifiers_of(cfg.camera@);
    let Config { system, camera, mqtt } = cfg;
    let mut cams: Vec<ConfigCamera> = Vec::new();
    let mut j: usize = 0;
    while j < camera.len()
        invariant
            j <= camera.len(),
            camera@ == cfg.camera@,
            ids == identifiers_of(cfg.camera@),
            cams@.len() == j,
            forall|k: int| 0 <= k < j ==> !repeats_earlier(ids, k),
            forall|k: int|
                0 <= k < j ==> {
                    let (a, b) = (#[trigger] cams@[k], cfg.camera@[k]);
                    &&& a.generated_id@ == camera_identifier(b.name@)
                    &&& a.name == b.name
                    &&& a.address == b.address
                    &&& a.port == b.port
                    &&& a.username == b.username
                    &&& a.password == b.password
                },
        decreases camera.len() - j,
    {
        let c = &camera[j];
        let id = make_identifier(c.name.as_str());
        let mut i: usize = 0;
        while i < j
            invariant
                i <= j < camera.len(),
                camera@ == cfg.camera@,
                ids == identifiers_of(cfg.camera@),
                cams@.len() == j,
                id@ == ids[j as int],
                *c == camera@[j as int],
                forall|k: int| 0 <= k < j ==> !repeats_earlier(ids, k),
                forall|k: int| 0 <= k < i ==> ids[k] != ids[j as int],
                forall|k: int|
                    0 <= k < j ==> (#[trigger] cams@[k]).generated_id@ == camera_identifier(
                        cfg.camera@[k].name@,
                    ),
            decreases j - i,
        {
            if same_text(cams[i].generated_id.as_str(), id.as_str()) {
                let mut m = owned("Camera ");
                m.append(c.name.as_str());
                m.append(" has duplicate ID: ");
                m.append(id.as_str());
                proof {
                    assert(ids[i as int] == camera_identifier(cfg.camera@[i as int].name@));
                    assert(ids[i as int] == ids[j as int]);
                    assert(repeats_earlier(ids, j as int));
                    assert(!all_distinct(ids));
                }
                return Err(m);
            }
            i = i + 1;
        }
        let cam = ConfigCamera {
            generated_id: id,
            name: c.name.clone(),
            address: c.address.clone(),
            port: c.port,
            username: c.username.clone(),
            password: c.password.clone(),
        };
        cams.push(cam);
        j = j + 1;
    }
    proof {
        assert forall|a: int, b: int| 0 <= a < b < ids.len() implies ids[a] != ids[b] by {
            assert(!repeats_earlier(ids, b));
        }
    }
    Ok(Config { system, camera: cams, mqtt })
}

} // verus!
