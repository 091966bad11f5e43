use vstd::prelude::*;

verus! {

#[verifier::external_type_specification]
#[verifier::external_body]
pub struct ExSettings(config::Config);

/// A required setting that the configuration does not hold.
#[derive(Clone, Debug)]
pub struct MissingSetting {
    pub key: String,
}

impl MissingSetting {
    /// `settings.<key> not found`.
    pub fn message(&self) -> (r: String)
        ensures
            r@ == seq!['s', 'e', 't', 't', 'i', 'n', 'g', 's', '.'] + self.key@ + seq![
                ' ',
                'n',
                'o',
                't',
                ' ',
                'f',
                'o',
                'u',
                'n',
                'd',
            ],
    {
        let head = String::from_str("settings.");
        let r = head.concat(self.key.as_str()).concat(" not found");
        proof {
            reveal_strlit("settings.");
            reveal_strlit(" not found");
        }
        r
    }
}

/// A key without a negative array subscript (`[`, then optional spaces or
/// tabs, then `-`): the configuration's path lookup panics on a negative
/// subscript past an array's length. Plain keys and keys with non-negative
/// subscripts, such as `hosts[0]`, are all admitted.
pub open spec fn plain_key(key: Seq<char>) -> bool {
    forall|i: int, j: int|
        #![trigger key[i], key[j]]
        0 <= i < j < key.len() && key[i] == '[' && (forall|k: int|
            i < k < j ==> #[trigger] key[k] == ' ' || key[k] == '\t') ==> key[j] != '-'
}

/// The settings that read as text, by key.
pub uninterp spec fn string_settings(c: config::Config) -> Map<Seq<char>, Seq<char>>;

/// The settings that read as a signed 64-bit integer, by key.
pub uninterp spec fn int_settings(c: config::Config) -> Map<Seq<char>, i64>;

/// The settings that read as an unsigned size, by key.
pub uninterp spec fn usize_settings(c: config::Config) -> Map<Seq<char>, usize>;

/// The settings that read as a boolean, by key.
pub uninterp spec fn bool_settings(c: config::Config) -> Map<Seq<char>, bool>;

/// Relies on `config::Config::get::<String>`: a function of the loaded
/// configuration and the key.
#[verifier::external_body]
fn lookup_string(settings: &config::Config, key: &str) -> (r: Option<String>)
    requires
        plain_key(key@),
    ensures
        r is Some <==> string_settings(*settings).contains_key(key@),
        r is Some ==> r->0@ == string_settings(*settings)[key@],
{
    settings.get::<String>(key).ok()
}

/// Relies on `config::Config::get::<i64>`: a function of the loaded
/// configuration and the key.
#[verifier::external_body]
fn lookup_int(settings: &config::Config, key: &str) -> (r: Option<i64>)
    requires
        plain_key(key@),
    ensures
        r is Some <==> int_settings(*settings).contains_key(key@),
        r is Some ==> r->0 == int_settings(*settings)[key@],
{
    settings.get::<i64>(key).ok()
}

/// Relies on `config::Config::get::<usize>`: a function of the loaded
/// configuration and the key.
#[verifier::external_body]
fn lookup_usize(settings: &config::Config, key: &str) -> (r: Option<usize>)
    requires
        plain_key(key@),
    ensures
        r is Some <==> usize_settings(*settings).contains_key(key@),
        r is Some ==> r->0 == usize_settings(*settings)[key@],
{
    settings.get::<usize>(key).ok()
}

/// Relies on `config::Config::get::<bool>`: a function of the loaded
/// configuration and the key.
#[verifier::external_body]
fn lookup_bool(settings: &config::Config, key: &str) -> (r: Option<bool>)
    requires
        plain_key(key@),
    ensures
        r is Some <==> bool_settings(*settings).contains_key(key@),
        r is Some ==> r->0 == bool_settings(*settings)[key@],
{
    settings.get::<bool>(key).ok()
}

/// The value a setting takes: the configured one where there is one, else the
/// default; `None` where there is neither.
pub open spec fn chosen<T>(found: Option<T>, def: Option<T>) -> Option<T> {
    match found {
        Some(v) => Some(v),
        None => def,
    }
}

/// What a map holds under a key, if anything.
pub open spec fn entry<V>(m: Map<Seq<char>, V>, key: Seq<char>) -> Option<V> {
    if m.contains_key(key) {
        Some(m[key])
    } else {
        None
    }
}

/// Picks a setting's value from what the configuration holds and the
/// caller's default.
pub fn resolve<T>(found: Option<T>, def: Option<T>) -> (r: Option<T>)
    ensures
        r == chosen(found, def),
{
    match found {
        Some(v) => Some(v),
        None => def,
    }
}

fn owned(s: &str) -> (r: String)
    ensures
        r@ == s@,
{
    String::from_str(s)
}

fn settle<T>(key: &str, found: Option<T>, def: Option<T>) -> (r: Result<T, MissingSetting>)
    ensures
        match chosen(found, def) {
            Some(v) => r == Ok::<T, MissingSetting>(v),
            None => r is Err && r->Err_0.key@ == key@,
        },
{
    match resolve(found, def) {
        Some(v) => Ok(v),
        None => Err(MissingSetting { key: owned(key) }),
    }
}

/// The string setting `key`, or `def` where it is not configured. With no
/// default, a missing setting is an error.
pub fn get_string(settings: &config::Config, key: &str, def: Option<&str>) -> (r: Result<String, MissingSetting>)
    requires
        plain_key(key@),
    ensures
        string_settings(*settings).contains_key(key@) ==> r is Ok && r->Ok_0@ == string_settings(*settings)[key@],
        !string_settings(*settings).contains_key(key@) && def is Some ==> r is Ok && r->Ok_0@ == def->0@,
        !string_settings(*settings).contains_key(key@) && def is None ==> r is Err && r->Err_0.key@ == key@,
{
    match lookup_string(settings, key) {
        Some(v) => Ok(v),
        None => match def {
            Some(d) => Ok(owned(d)),
            None => Err(MissingSetting { key: owned(key) }),
        },
    }
}

/// The integer setting `key`, or `def` where it is not configured. With no
/// default, a missing setting is an error.
pub fn get_int(settings: &config::Config, key: &str, def: Option<i64>) -> (r: Result<i64, MissingSetting>)
    requires
        plain_key(key@),
    ensures
        match chosen(entry(int_settings(*settings), key@), def) {
            Some(v) => r == Ok::<i64, MissingSetting>(v),
            None => r is Err && r->Err_0.key@ == key@,
        },
{
    settle(key, lookup_int(settings, key), def)
}

/// The size setting `key`, or `def` where it is not configured. With no
/// default, a missing setting is an error.
pub fn get_usize(settings: &config::Config, key: &str, def: Option<usize>) -> (r: Result<usize, MissingSetting>)
    requires
        plain_key(key@),
    ensures
        match chosen(entry(usize_settings(*settings), key@), def) {
            Some(v) => r == Ok::<usize, MissingSetting>(v),
            None => r is Err && r->Err_0.key@ == key@,
        },
{
    settle(key, lookup_usize(settings, key), def)
}

/// The boolean setting `key`, or `def` where it is not configured. With no
/// default, a missing setting is an error.
pub fn get_bool(settings: &config::Config, key: &str, def: Option<bool>) -> (r: Result<bool, MissingSetting>)
    requires
        plain_key(key@),
    ensures
        match chosen(entry(bool_settings(*settings), key@), def) {
            Some(v) => r == Ok::<bool, MissingSetting>(v),
            None => r is Err && r->Err_0.key@ == key@,
        },
{
    settle(key, lookup_bool(settings, key), def)
}

/// The pieces of `s` between commas, read left to right: one more piece than
/// there are commas.
pub open spec fn split_commas(s: Seq<char>) -> Seq<Seq<char>>
    decreases s.len(),
{
    if s.len() == 0 {
        seq![Seq::<char>::empty()]
    } else {
        let init = split_commas(s.drop_last());
        if s.last() == ',' {
            init.push(Seq::<char>::empty())
        } else {
            init.update(init.len() - 1, init.last().push(s.last()))
        }
    }
}

/// The items of a comma-separated list: none for the empty string.
pub open spec fn list_items(s: Seq<char>) -> Seq<Seq<char>> {
    if s.len() == 0 {
        Seq::empty()
    } else {
        split_commas(s)
    }
}

/// The views of a list of strings.
pub open spec fn views(v: Seq<String>) -> Seq<Seq<char>> {
    v.map_values(|x: String| x@)
}

/// Splits a comma-separated list into its items, keeping each item's text as
/// it stands; the empty string is the empty list.
pub fn split_list(value: &str) -> (r: Vec<String>)
    ensures
        views(r@) == list_items(value@),
{
    let n = value.unicode_len();
    let mut pieces: Vec<String> = Vec::new();
    if n == 0 {
        assert(views(pieces@) =~= Seq::<Seq<char>>::empty());
        return pieces;
    }
    let ghost s = value@;
    let mut start: usize = 0;
    let mut i: usize = 0;
    assert(s.subrange(0, 0) =~= Seq::<char>::empty());
    assert(views(pieces@).push(s.subrange(0, 0)) =~= split_commas(s.subrange(0, 0)));
    while i < n
        invariant
            n == s.len(),
            s == value@,
            start <= i <= n,
            views(pieces@).push(s.subrange(start as int, i as int)) == split_commas(s.subrange(0, i as int)),
        decreases n - i,
    {
        let c = value.get_char(i);
        let ghost pre = s.subrange(0, i as int);
        let ghost next = s.subrange(0, i + 1);
        assert(next.drop_last() =~= pre);
        assert(next.last() == c);
        if c == ',' {
            let piece = owned(value.substring_char(start, i));
            let ghost before = pieces@;
            pieces.push(piece);
            assert(views(pieces@) =~= views(before).push(piece@));
            start = i + 1;
            assert(s.subrange(start as int, i + 1) =~= Seq::<char>::empty());
        } else {
            let ghost x = s.subrange(start as int, i as int);
            assert(s.subrange(start as int, i + 1) =~= x.push(c));
            assert(views(pieces@).push(x.push(c)) =~= views(pieces@).push(x).update(
                views(pieces@).len() as int,
                x.push(c),
            ));
        }
        i = i + 1;
    }
    let last = owned(value.substring_char(start, n));
    let ghost before = pieces@;
    pieces.push(last);
    assert(views(pieces@) =~= views(before).push(last@));
    assert(s.subrange(0, n as int) =~= s);
    pieces
}

/// The list setting `key`: the configured string split at its commas, and
/// the empty list where the setting is missing or empty.
pub fn get_array(settings: &config::Config, key: &str) -> (r: Vec<String>)
    requires
        plain_key(key@),
    ensures
        string_settings(*settings).contains_key(key@) ==> views(r@) == list_items(string_settings(*settings)[key@]),
        !string_settings(*settings).contains_key(key@) ==> r@.len() == 0,
{
    match get_string(settings, key, Some("")) {
        Ok(v) => {
            proof {
                reveal_strlit("");
            }
            let r = split_list(v.as_str());
            assert(views(r@).len() == r@.len());
            r
        },
        Err(_) => Vec::new(),
    }
}

} // verus!
