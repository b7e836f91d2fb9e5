use vstd::prelude::*;
use vstd::string::*;

use crate::error::ClientError;

verus! {

/// A reference to a model: a hosted `owner/name` pair, or a local path.
#[derive(Debug, Clone, PartialEq, Eq)]
pub enum Model {
    HuggingFace(String, String),
    Local(String),
}

/// The mathematical value of a [`Model`].
pub enum ModelId {
    Hosted { owner: Seq<char>, name: Seq<char> },
    Local { path: Seq<char> },
}

impl View for Model {
    type V = ModelId;

    open spec fn view(&self) -> ModelId {
        match self {
            Model::HuggingFace(owner, name) => ModelId::Hosted { owner: owner@, name: name@ },
            Model::Local(path) => ModelId::Local { path: path@ },
        }
    }
}

/// The text starts with the two characters `./`.
pub open spec fn has_local_prefix(t: Seq<char>) -> bool {
    t.len() >= 2 && t[0] == '.' && t[1] == '/'
}

/// `k` is the position of the first `/` in the text.
pub open spec fn is_first_slash(t: Seq<char>, k: int) -> bool {
    &&& 0 <= k < t.len()
    &&& t[k] == '/'
    &&& forall|j: int| 0 <= j < k ==> t[j] != '/'
}

/// The text holds a `/`.
pub open spec fn has_slash(t: Seq<char>) -> bool {
    exists|k: int| 0 <= k < t.len() && t[k] == '/'
}

/// The position of the first `/` (meaningful where `has_slash` holds).
pub open spec fn first_slash(t: Seq<char>) -> int {
    choose|k: int| is_first_slash(t, k)
}

/// What parsing a model reference yields: a local path after `./`, else the
/// text split on its first `/` into a non-empty owner and a non-empty name.
pub open spec fn parse_model(t: Seq<char>) -> Option<ModelId> {
    if has_local_prefix(t) {
        Some(ModelId::Local { path: t.subrange(2, t.len() as int) })
    } else if has_slash(t) && 0 < first_slash(t) < t.len() - 1 {
        Some(
            ModelId::Hosted {
                owner: t.subrange(0, first_slash(t)),
                name: t.subrange(first_slash(t) + 1, t.len() as int),
            },
        )
    } else {
        None
    }
}

/// The wire string of a model: `owner/name`, or the path as stored.
pub open spec fn format_model(m: ModelId) -> Seq<char> {
    match m {
        ModelId::Hosted { owner, name } => owner + seq!['/'] + name,
        ModelId::Local { path } => path,
    }
}

/// Where a text holds a `/`, its first one is a first slash.
pub proof fn lemma_first_slash(t: Seq<char>)
    requires
        has_slash(t),
    ensures
        is_first_slash(t, first_slash(t)),
    decreases t.len(),
{
    let k = choose|k: int| 0 <= k < t.len() && t[k] == '/';
    if exists|j: int| 0 <= j < k && t[j] == '/' {
        let j = choose|j: int| 0 <= j < k && t[j] == '/';
        let p = t.subrange(0, k);
        assert(p[j] == '/');
        lemma_first_slash(p);
        let f = first_slash(p);
        assert forall|x: int| 0 <= x < f implies t[x] != '/' by {
            assert(p[x] == t[x]);
        }
        assert(p[f] == t[f]);
        assert(is_first_slash(t, f));
    } else {
        assert(is_first_slash(t, k));
    }
}

/// Two first slashes of one text are at the same position.
pub proof fn lemma_first_slash_unique(t: Seq<char>, a: int, b: int)
    requires
        is_first_slash(t, a),
        is_first_slash(t, b),
    ensures
        a == b,
{
}

impl Model {
    /// Parses a model reference. Text after a leading `./` is a local path,
    /// taken verbatim; any other text must be `owner/name`, split on its first
    /// `/`, with both parts non-empty.
    pub fn parse(value: &str) -> (r: Result<Model, ClientError>)
        ensures
            match parse_model(value@) {
                Some(m) => r matches Ok(v) && v@ == m,
                None => r == Err::<Model, ClientError>(ClientError::InvalidModelIdentifier),
            },
    {
        let n = value.unicode_len();
        if n >= 2 && value.get_char(0) == '.' && value.get_char(1) == '/' {
            let rest = value.substring_char(2, n);
            return Ok(Model::Local(String::from_str(rest)));
        }
        let mut i: usize = 0;
        while i < n && value.get_char(i) != '/'
            invariant
                i <= n,
                n == value@.len(),
                forall|j: int| 0 <= j < i ==> value@[j] != '/',
            decreases n - i,
        {
            i = i + 1;
        }
        if i == n {
            return Err(ClientError::InvalidModelIdentifier);
        }
        proof {
            assert(is_first_slash(value@, i as int));
            lemma_first_slash(value@);
            lemma_first_slash_unique(value@, i as int, first_slash(value@));
        }
        if i == 0 || i + 1 == n {
            return Err(ClientError::InvalidModelIdentifier);
        }
        let owner = value.substring_char(0, i);
        let name = value.substring_char(i + 1, n);
        Ok(Model::HuggingFace(String::from_str(owner), String::from_str(name)))
    }

    /// The wire string of this model: `owner/name` for a hosted model, the
    /// path without any `./` prefix for a local one.
    pub fn to_string(&self) -> (r: String)
        ensures
            r@ == format_model(self@),
    {
        match self {
            Model::HuggingFace(owner, name) => {
                let s = owner.clone().concat("/");
                proof {
                    reveal_strlit("/");
                }
                s.concat(name.as_str())
            },
            Model::Local(path) => path.clone(),
        }
    }
}

/// Formatting a parsed `owner/name` gives the text back, for an owner and a
/// name that are non-empty and hold no `/`, the owner not being `.` (which
/// would make the text a local path).
pub proof fn lemma_hosted_round_trip(owner: Seq<char>, name: Seq<char>)
    requires
        owner.len() > 0,
        name.len() > 0,
        !owner.contains('/'),
        !name.contains('/'),
        owner != seq!['.'],
    ensures
        parse_model(owner + seq!['/'] + name) == Some(
            ModelId::Hosted { owner: owner, name: name },
        ),
        format_model(parse_model(owner + seq!['/'] + name).unwrap()) == owner + seq!['/'] + name,
{
    let t = owner + seq!['/'] + name;
    let k = owner.len() as int;
    assert(t[k] == '/');
    assert forall|j: int| 0 <= j < k implies t[j] != '/' by {
        assert(t[j] == owner[j]);
    }
    assert(is_first_slash(t, k));
    lemma_first_slash(t);
    lemma_first_slash_unique(t, k, first_slash(t));
    if owner.len() == 1 {
        assert(t[0] == owner[0]);
        if t[0] == '.' {
            assert(owner =~= seq!['.']);
        }
    } else {
        assert(t[1] == owner[1]);
    }
    assert(!has_local_prefix(t));
    assert(t.subrange(0, k) =~= owner);
    assert(t.subrange(k + 1, t.len() as int) =~= name);
}

/// Parsing `./` followed by a path gives that path as a local model.
pub proof fn lemma_local_parse(path: Seq<char>)
    ensures
        parse_model(seq!['.', '/'] + path) == Some(ModelId::Local { path: path }),
{
    let t = seq!['.', '/'] + path;
    assert(t.subrange(2, t.len() as int) =~= path);
}

/// A reference that is not a local path and holds no `/` does not parse.
pub proof fn lemma_no_separator_rejected(t: Seq<char>)
    requires
        !has_local_prefix(t),
        !t.contains('/'),
    ensures
        parse_model(t) is None,
{
}

} // verus!
