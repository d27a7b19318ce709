use vstd::prelude::*;

verus! {

/// The value bound to `key` in a list of named parameters: the first pair
/// whose name is `key`, if any.
pub open spec fn parameter_value(params: Seq<(String, String)>, key: Seq<char>) -> Option<Seq<char>>
    decreases params.len(),
{
    if params.len() == 0 {
        None
    } else if params[0].0@ == key {
        Some(params[0].1@)
    } else {
        parameter_value(params.drop_first(), key)
    }
}

/// The first of the four identifier parameters, in the order name,
/// version, user, channel, that `params` does not bind.
pub open spec fn first_missing(params: Seq<(String, String)>) -> Option<Seq<char>> {
    if parameter_value(params, "name"@) is None {
        Some("name"@)
    } else if parameter_value(params, "version"@) is None {
        Some("version"@)
    } else if parameter_value(params, "user"@) is None {
        Some("user"@)
    } else if parameter_value(params, "channel"@) is None {
        Some("channel"@)
    } else {
        None
    }
}

/// A parameter list that binds three of `name`, `version`, `user`,
/// `channel` but not the fourth is refused naming the fourth.
pub proof fn lemma_missing_parameter_named(params: Seq<(String, String)>, key: Seq<char>)
    requires
        key == "name"@ || key == "version"@ || key == "user"@ || key == "channel"@,
        parameter_value(params, key) is None,
        key != "name"@ ==> parameter_value(params, "name"@) is Some,
        key != "version"@ ==> parameter_value(params, "version"@) is Some,
        key != "user"@ ==> parameter_value(params, "user"@) is Some,
        key != "channel"@ ==> parameter_value(params, "channel"@) is Some,
    ensures
        first_missing(params) == Some(key),
{
    reveal_strlit("name");
    reveal_strlit("version");
    reveal_strlit("user");
    reveal_strlit("channel");
    assert("name"@[0] == 'n');
    assert("version"@[0] == 'v');
    assert("user"@[0] == 'u');
    assert("channel"@[0] == 'c');
}

/// `name/version@user/channel`, the key under which the store files a recipe.
pub open spec fn canonical(name: Seq<char>, version: Seq<char>, user: Seq<char>, channel: Seq<char>) -> Seq<char> {
    name + "/"@ + version + "@"@ + user + "/"@ + channel
}

/// `s` holds neither of the delimiters of the canonical form.
pub open spec fn free_of_delimiters(s: Seq<char>) -> bool {
    !s.contains('/') && !s.contains('@')
}

proof fn lemma_split_at_delimiter(x1: Seq<char>, y1: Seq<char>, x2: Seq<char>, y2: Seq<char>, d: char)
    requires
        !x1.contains(d),
        !x2.contains(d),
        x1 + seq![d] + y1 == x2 + seq![d] + y2,
    ensures
        x1 == x2,
        y1 == y2,
{
    let s = x1 + seq![d] + y1;
    let t = x2 + seq![d] + y2;
    if x1.len() < x2.len() {
        assert(s[x1.len() as int] == d);
        assert(t[x1.len() as int] == x2[x1.len() as int]);
    } else if x2.len() < x1.len() {
        assert(t[x2.len() as int] == d);
        assert(s[x2.len() as int] == x1[x2.len() as int]);
    }
    assert(x1 =~= s.subrange(0, x1.len() as int));
    assert(x2 =~= t.subrange(0, x2.len() as int));
    assert(y1 =~= s.subrange(x1.len() as int + 1, s.len() as int));
    assert(y2 =~= t.subrange(x2.len() as int + 1, t.len() as int));
}

proof fn lemma_canonical_split(name: Seq<char>, version: Seq<char>, user: Seq<char>, channel: Seq<char>)
    ensures
        canonical(name, version, user, channel) == name + seq!['/'] + (version + seq!['@'] + (user
            + seq!['/'] + channel)),
{
    reveal_strlit("/");
    reveal_strlit("@");
    assert("/"@ =~= seq!['/']);
    assert("@"@ =~= seq!['@']);
    assert(canonical(name, version, user, channel) =~= name + seq!['/'] + (version + seq!['@'] + (
    user + seq!['/'] + channel)));
}

/// Fields free of `/` and `@` can be read back from the canonical form:
/// two such identifiers with the same canonical form have the same fields.
pub proof fn lemma_canonical_distinguishes(a: RecipeIdentifier, b: RecipeIdentifier)
    requires
        free_of_delimiters(a.name@),
        free_of_delimiters(a.version@),
        free_of_delimiters(a.user@),
        free_of_delimiters(a.channel@),
        free_of_delimiters(b.name@),
        free_of_delimiters(b.version@),
        free_of_delimiters(b.user@),
        free_of_delimiters(b.channel@),
        a.canonical_form() == b.canonical_form(),
    ensures
        a.name@ == b.name@,
        a.version@ == b.version@,
        a.user@ == b.user@,
        a.channel@ == b.channel@,
{
    lemma_canonical_split(a.name@, a.version@, a.user@, a.channel@);
    lemma_canonical_split(b.name@, b.version@, b.user@, b.channel@);
    let ra = a.version@ + seq!['@'] + (a.user@ + seq!['/'] + a.channel@);
    let rb = b.version@ + seq!['@'] + (b.user@ + seq!['/'] + b.channel@);
    lemma_split_at_delimiter(a.name@, ra, b.name@, rb, '/');
    lemma_split_at_delimiter(
        a.version@,
        a.user@ + seq!['/'] + a.channel@,
        b.version@,
        b.user@ + seq!['/'] + b.channel@,
        '@',
    );
    lemma_split_at_delimiter(a.user@, a.channel@, b.user@, b.channel@, '/');
}

/// Looks up `key` among named parameters.
pub fn parameter(params: &Vec<(String, String)>, key: &str) -> (r: Option<String>)
    ensures
        r matches Some(v) ==> parameter_value(params@, key@) == Some(v@),
        r is None ==> parameter_value(params@, key@) is None,
{
    let wanted = String::from_str(key);
    let mut i: usize = 0;
    assert(params@.subrange(0, params@.len() as int) =~= params@);
    while i < params.len()
        invariant
            i <= params@.len(),
            wanted@ == key@,
            parameter_value(params@, key@) == parameter_value(params@.subrange(i as int, params@.len() as int), key@),
        decreases params@.len() - i,
    {
        proof {
            let rest = params@.subrange(i as int, params@.len() as int);
            assert(rest.drop_first() =~= params@.subrange(i + 1, params@.len() as int));
        }
        if params[i].0 == wanted {
            return Some(params[i].1.clone());
        }
        i = i + 1;
    }
    None
}

/// A request lacked one of the parameters that name a recipe.
#[derive(Debug, Clone, PartialEq, Eq)]
pub struct MissingParameterError(pub String);

impl MissingParameterError {
    /// `missing parameter: <name>`.
    pub fn message(&self) -> (r: String)
        ensures
            r@ == "missing parameter: "@ + self.0@,
    {
        let r = String::from_str("missing parameter: ");
        r.concat(self.0.as_str())
    }
}

/// The compound key of a recipe lineage.
#[derive(Debug, Clone, PartialEq, Eq, PartialOrd, Ord, Hash)]
pub struct RecipeIdentifier {
    pub name: String,
    pub version: String,
    pub user: String,
    pub channel: String,
}

impl RecipeIdentifier {
    pub open spec fn canonical_form(&self) -> Seq<char> {
        canonical(self.name@, self.version@, self.user@, self.channel@)
    }

    pub fn new(name: String, version: String, user: String, channel: String) -> (r: RecipeIdentifier)
        ensures
            r.name == name,
            r.version == version,
            r.user == user,
            r.channel == channel,
    {
        RecipeIdentifier { name, version, user, channel }
    }

    /// Builds an identifier from named parameters; fails naming the first
    /// of `name`, `version`, `user`, `channel` that is absent. An empty
    /// value is accepted.
    pub fn from_parameters(parameters: &Vec<(String, String)>) -> (r: Result<RecipeIdentifier, MissingParameterError>)
        ensures
            r is Err <==> first_missing(parameters@) is Some,
            r matches Err(e) ==> first_missing(parameters@) == Some(e.0@),
            r matches Ok(id) ==> {
                &&& parameter_value(parameters@, "name"@) == Some(id.name@)
                &&& parameter_value(parameters@, "version"@) == Some(id.version@)
                &&& parameter_value(parameters@, "user"@) == Some(id.user@)
                &&& parameter_value(parameters@, "channel"@) == Some(id.channel@)
            },
    {
        let name = match parameter(parameters, "name") {
            Some(v) => v,
            None => return Err(MissingParameterError(String::from_str("name"))),
        };
        let version = match parameter(parameters, "version") {
            Some(v) => v,
            None => return Err(MissingParameterError(String::from_str("version"))),
        };
        let user = match parameter(parameters, "user") {
            Some(v) => v,
            None => return Err(MissingParameterError(String::from_str("user"))),
        };
        let channel = match parameter(parameters, "channel") {
            Some(v) => v,
            None => return Err(MissingParameterError(String::from_str("channel"))),
        };
        Ok(RecipeIdentifier { name, version, user, channel })
    }

    /// The canonical string form `name/version@user/channel`.
    pub fn to_string(&self) -> (r: String)
        ensures
            r@ == self.canonical_form(),
    {
        let r = self.name.clone();
        let r = r.concat("/");
        let r = r.concat(self.version.as_str());
        let r = r.concat("@");
        let r = r.concat(self.user.as_str());
        let r = r.concat("/");
        r.concat(self.channel.as_str())
    }
}

} // verus!
