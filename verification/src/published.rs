//! The IDs that were published by an earlier run, and the file that remembers them.

use crate::startup::texts;
use vstd::prelude::*;
use vstd::utf8::encode_utf8;

verus! {

/// `serde_json::Error`.
#[verifier::external_type_specification]
#[verifier::external_body]
pub struct ExJsonError(serde_json::Error);

/// The JSON text of a list of texts, indented, in UTF-8.
pub uninterp spec fn string_list_json(list: Seq<Seq<char>>) -> Seq<u8>;

/// The list of texts that a JSON text stands for, if it stands for one.
pub uninterp spec fn parsed_string_list(text: Seq<char>) -> Option<Seq<Seq<char>>>;

/// The list that reading gave, if it gave one.
pub open spec fn read_texts(r: Result<Vec<String>, serde_json::Error>) -> Option<Seq<Seq<char>>> {
    match r {
        Ok(list) => Some(texts(list@)),
        Err(_) => None,
    }
}

/// `serde_json::to_vec_pretty` on a list of strings: the JSON text, here only named. It fails
/// only where the serialisation of the value itself does, and that of a string never does.
#[verifier::external_body]
fn string_list_to_json(list: &[String]) -> (r: Result<Vec<u8>, serde_json::Error>)
    ensures
        r is Ok,
        r->Ok_0@ == string_list_json(texts(list@)),
{
    serde_json::to_vec_pretty(list)
}

/// `serde_json::from_str` to a list of strings: the result, here only named, and that it reads
/// back what `serde_json::to_vec_pretty` wrote.
#[verifier::external_body]
fn parse_string_list(text: &str) -> (r: Result<Vec<String>, serde_json::Error>)
    ensures
        read_texts(r) == parsed_string_list(text@),
        forall|list: Seq<Seq<char>>|
            encode_utf8(text@) == #[trigger] string_list_json(list) ==> read_texts(r) == Some(list),
{
    serde_json::from_str::<Vec<String>>(text)
}

/// Why the published IDs could not be written.
#[derive(Clone, Copy, Debug, PartialEq, Eq, Structural)]
pub enum EncodeError {
    /// They have no JSON form.
    NotSerializable,
}

/// The list that reading the file gave, or an empty one.
pub open spec fn list_or_empty(list: Option<Seq<Seq<char>>>) -> Seq<Seq<char>> {
    match list {
        Some(list) => list,
        None => seq![],
    }
}

/// Goes on with what reading the file gave: a list, or nothing.
pub fn published_ids(parsed: Option<Vec<String>>) -> (r: Vec<String>)
    ensures
        parsed matches Some(list) ==> r@ == list@,
        parsed is None ==> r@ == Seq::<String>::empty(),
{
    match parsed {
        Some(list) => list,
        None => Vec::new(),
    }
}

/// Reads the published IDs from the contents of their file. Without a file, or where it does not
/// hold a list of texts, there are none. What was saved is read back.
pub fn load_published_ids(contents: Option<&str>) -> (r: Vec<String>)
    ensures
        contents is None ==> r@.len() == 0,
        contents matches Some(text) ==> texts(r@) == list_or_empty(parsed_string_list(text@)),
        contents matches Some(text) ==> forall|ids: Seq<Seq<char>>|
            encode_utf8(text@) == #[trigger] string_list_json(ids) ==> texts(r@) == ids,
{
    let parsed = match contents {
        Some(text) => match parse_string_list(text) {
            Ok(list) => Some(list),
            Err(_) => None,
        },
        None => None,
    };
    let ids = published_ids(parsed);
    assert(parsed is None ==> texts(ids@) =~= seq![]);
    ids
}

/// The contents of the file that remembers the published IDs.
pub fn save_published_ids(device_ids: &Vec<String>) -> (r: Result<Vec<u8>, EncodeError>)
    ensures
        r is Ok,
        r->Ok_0@ == string_list_json(texts(device_ids@)),
{
    match string_list_to_json(device_ids.as_slice()) {
        Ok(json) => Ok(json),
        Err(_) => Err(EncodeError::NotSerializable),
    }
}

/// A path without the slashes at its end; the slash of the root stays.
pub open spec fn without_end_slashes(path: Seq<char>) -> Seq<char>
    decreases path.len(),
{
    if path.len() > 1 && path.last() == '/' {
        without_end_slashes(path.drop_last())
    } else {
        path
    }
}

/// A path up to its last slash, included; nothing is left of a single name.
pub open spec fn up_to_last_slash(path: Seq<char>) -> Seq<char>
    decreases path.len(),
{
    if path.len() == 0 || path.last() == '/' {
        path
    } else {
        up_to_last_slash(path.drop_last())
    }
}

/// A path without its last name. Slashes at the end, and repeated ones before the last name, do
/// not count.
pub open spec fn directory_of(path: Seq<char>) -> Seq<char> {
    without_end_slashes(up_to_last_slash(without_end_slashes(path)))
}

/// Whether a path is written in the way that all platforms read alike: names separated by slashes,
/// with or without a single one in front, and none of the names a lone dot, but that a first name
/// may be one if others follow.
pub open spec fn plain_path(path: Seq<char>) -> bool {
    &&& path.len() > 0
    &&& without_end_slashes(path).last() != '/'
    &&& !(path[0] == '/' && path[1] == '/')
    &&& forall|i: int|
        0 <= i < path.len() ==> #[trigger] path[i] != '\\' && path[i] != ':' && path[i] != '\0'
    &&& forall|i: int|
        0 <= i < path.len() && #[trigger] path[i] == '.' ==> (i == 0 && without_end_slashes(
            path,
        ).len() > 1) || !((i == 0 || path[i - 1] == '/') && (i + 1 == path.len() || path[i + 1]
            == '/'))
}

/// `Path::parent`, as a text: the path without its final component. It is a shorter beginning of
/// the path. A path in the plain form loses its last name, and separators that are repeated or
/// stand at the end do not count; an empty path and the root have no parent. Where other paths are
/// cut depends on the platform's separators and prefixes, and is left open.
#[verifier::external_body]
fn path_parent(path: &str) -> (r: Option<String>)
    ensures
        r matches Some(dir) ==> dir@.len() < path@.len() && dir@ == path@.take(dir@.len() as int),
        path@.len() == 0 || path@ == seq!['/'] ==> r is None,
        plain_path(path@) ==> r is Some && r->0@ == directory_of(path@),
{
    match std::path::Path::new(path).parent() {
        Some(dir) => Some(dir.to_string_lossy().into_owned()),
        None => None,
    }
}

/// Name of the file that remembers the published IDs.
pub open spec fn cache_file_name() -> Seq<char> {
    ".published-device-ids.json"@
}

/// Where the published IDs are remembered: a file in a directory.
pub struct CachePath {
    pub directory: String,
    pub file_name: String,
}

/// The file next to a configuration file in this directory; without one, in the current directory.
pub fn cache_path_in(config_dir: Option<String>) -> (r: CachePath)
    ensures
        r.directory@ == match config_dir {
            Some(dir) => dir@,
            None => "."@,
        },
        r.file_name@ == cache_file_name(),
{
    let directory = match config_dir {
        Some(dir) => dir,
        None => ".".to_owned(),
    };
    CachePath { directory, file_name: ".published-device-ids.json".to_owned() }
}

/// Where the published IDs are remembered for a configuration file: next to it. Of a path that is
/// not in the plain form, only that the directory is a beginning of it, or the current one.
pub fn published_ids_cache_path(config_path: &str) -> (r: CachePath)
    ensures
        r.directory@ == "."@ || (r.directory@.len() < config_path@.len() && r.directory@
            == config_path@.take(r.directory@.len() as int)),
        config_path@.len() == 0 || config_path@ == seq!['/'] ==> r.directory@ == "."@,
        plain_path(config_path@) ==> r.directory@ == directory_of(config_path@),
        r.file_name@ == cache_file_name(),
{
    cache_path_in(path_parent(config_path))
}

/// Those of the previous IDs that are not current, in their order.
pub open spec fn stale_of(previous: Seq<Seq<char>>, current: Seq<Seq<char>>) -> Seq<Seq<char>> {
    previous.filter(|id: Seq<char>| !current.contains(id))
}

fn contains_text(list: &Vec<String>, s: &String) -> (r: bool)
    ensures
        r == texts(list@).contains(s@),
{
    let mut i: usize = 0;
    while i < list.len()
        invariant
            i <= list.len(),
            forall|j: int| 0 <= j < i ==> (#[trigger] list@[j])@ != s@,
        decreases list.len() - i,
    {
        if list[i] == *s {
            assert(texts(list@)[i as int] == s@);
            return true;
        }
        i += 1;
    }
    assert forall|j: int| 0 <= j < texts(list@).len() implies texts(list@)[j] != s@ by {
        assert(list@[j]@ != s@);
    }
    false
}

/// Those of the previously published IDs that are no longer configured.
pub fn stale_ids(previous: &Vec<String>, current: &Vec<String>) -> (r: Vec<String>)
    ensures
        texts(r@) == stale_of(texts(previous@), texts(current@)),
{
    let ghost gone = |id: Seq<char>| !texts(current@).contains(id);
    let mut stale: Vec<String> = Vec::new();
    let mut i: usize = 0;
    assert(texts(previous@).take(0) =~= seq![]);
    proof {
        reveal(Seq::filter);
        assert(texts(stale@) =~= seq![]);
    }
    while i < previous.len()
        invariant
            i <= previous.len(),
            gone == (|id: Seq<char>| !texts(current@).contains(id)),
            texts(stale@) == texts(previous@).take(i as int).filter(gone),
        decreases previous.len() - i,
    {
        proof {
            reveal(Seq::filter);
            let upto = texts(previous@).take(i + 1);
            assert(upto.drop_last() =~= texts(previous@).take(i as int));
            assert(upto.last() == previous@[i as int]@);
        }
        let ghost before = stale@;
        if !contains_text(current, &previous[i]) {
            stale.push(previous[i].clone());
            assert(texts(stale@) =~= texts(before).push(previous@[i as int]@));
        }
        i += 1;
    }
    assert(texts(previous@).take(previous@.len() as int) =~= texts(previous@));
    stale
}

/// An ID is stale exactly if it was published before and is not configured now.
pub proof fn stale_ids_are_the_unconfigured(
    previous: Seq<Seq<char>>,
    current: Seq<Seq<char>>,
    id: Seq<char>,
)
    ensures
        stale_of(previous, current).contains(id) <==> previous.contains(id) && !current.contains(
            id,
        ),
{
    let gone = |id: Seq<char>| !current.contains(id);
    broadcast use vstd::seq_lib::group_filter_ensures;

    if stale_of(previous, current).contains(id) {
        previous.lemma_filter_contains_rev(gone, id);
        let i = previous.filter(gone).index_of(id);
        assert(gone(previous.filter(gone)[i]));
    }
    if previous.contains(id) && !current.contains(id) {
        let i = previous.index_of(id);
        assert(gone(previous[i]));
        assert(previous.filter(gone).contains(previous[i]));
    }
}

/// Where everything that was published is still configured, nothing is stale. So it is when the
/// configuration is unchanged.
pub proof fn nothing_is_stale_while_configured(previous: Seq<Seq<char>>, current: Seq<Seq<char>>)
    requires
        forall|i: int| 0 <= i < previous.len() ==> current.contains(#[trigger] previous[i]),
    ensures
        stale_of(previous, current) == Seq::<Seq<char>>::empty(),
        stale_of(current, current) == Seq::<Seq<char>>::empty(),
{
    if stale_of(previous, current).len() > 0 {
        let id = stale_of(previous, current)[0];
        stale_ids_are_the_unconfigured(previous, current, id);
        assert(stale_of(previous, current).contains(id));
        let i = previous.index_of(id);
        assert(current.contains(previous[i]));
    }
    if stale_of(current, current).len() > 0 {
        let id = stale_of(current, current)[0];
        stale_ids_are_the_unconfigured(current, current, id);
        assert(stale_of(current, current).contains(id));
    }
}

/// Stale IDs are found one by one: each previous ID that is current is passed over, and each that is
/// not is kept in its turn, as often as it occurs.
pub proof fn stale_ids_are_found_in_turn(
    previous: Seq<Seq<char>>,
    current: Seq<Seq<char>>,
    id: Seq<char>,
)
    ensures
        stale_of(seq![], current).len() == 0,
        current.contains(id) ==> stale_of(previous.push(id), current) == stale_of(
            previous,
            current,
        ),
        !current.contains(id) ==> stale_of(previous.push(id), current) == stale_of(
            previous,
            current,
        ).push(id),
{
    reveal(Seq::filter);
    assert(previous.push(id).drop_last() =~= previous);
}

/// The file stands in the directory of the configuration file: what comes before the last slash and
/// the name after it. Without a slash that is the current directory, under the root it is the root,
/// and slashes at the end make no difference.
pub proof fn directories_come_before_the_last_name(directory: Seq<char>, name: Seq<char>)
    requires
        name.len() > 0,
        forall|i: int| 0 <= i < name.len() ==> #[trigger] name[i] != '/',
    ensures
        directory_of(name).len() == 0,
        directory_of(seq!['/'] + name) == seq!['/'],
        directory.len() > 0 && directory.last() != '/' ==> directory_of(
            directory.push('/') + name,
        ) == directory,
        directory.len() > 0 ==> directory_of(directory.push('/')) == directory_of(directory),
{
    let empty = Seq::<char>::empty();
    let root = seq!['/'];
    assert(name[name.len() - 1] != '/');
    assert(empty + name =~= name);
    names_are_cut_off(empty, name);
    names_are_cut_off(root, name);
    names_are_cut_off(directory.push('/'), name);
    let whole = directory.push('/') + name;
    assert(whole.last() == name.last());
    assert(directory.push('/').drop_last() =~= directory);
    assert(without_end_slashes(directory.push('/')) == if directory.len() > 0 {
        without_end_slashes(directory)
    } else {
        directory.push('/')
    });
}

proof fn names_are_cut_off(before: Seq<char>, name: Seq<char>)
    requires
        before.len() == 0 || before.last() == '/',
        forall|i: int| 0 <= i < name.len() ==> #[trigger] name[i] != '/',
    ensures
        up_to_last_slash(before + name) == before,
    decreases name.len(),
{
    if name.len() == 0 {
        assert(before + name =~= before);
    } else {
        assert(name[name.len() - 1] != '/');
        assert((before + name).drop_last() =~= before + name.drop_last());
        names_are_cut_off(before, name.drop_last());
    }
}

/// Where reading gave a list, that list counts; otherwise there are no IDs. The IDs are remembered
/// in a file of a fixed name.
pub proof fn unread_lists_are_empty(list: Seq<Seq<char>>)
    ensures
        list_or_empty(Some(list)) == list,
        list_or_empty(None).len() == 0,
        cache_file_name() == ".published-device-ids.json"@,
{
}

} // verus!
