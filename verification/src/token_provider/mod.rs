//! Token resolution chain: env → file → keychain → exec.
//!
//! The first backend that yields a token wins; when later backends
//! yield one too, a warning names the ones it shadows. Reading each
//! backend (environment, files, processes) is left to the caller; the
//! chain decides from what was read.

pub mod providers;

use vstd::prelude::*;

use crate::config::NotionToken;
use crate::foreign::utf8_text;
use crate::text::{chars_of, concat, join, join_seqs, push_char, text_eq, trim, trimmed};

pub use providers::env::EnvProvider;
pub use providers::exec::ExecProvider;
pub use providers::file::FileProvider;
pub use providers::keychain::KeychainProvider;

verus! {

/// A token backend.
pub trait TokenProvider {
    /// The backend's name in warnings.
    fn name(&self) -> &'static str;
}

/// The backends of a chain.
#[derive(Debug, Clone, Copy, PartialEq, Eq, Structural)]
pub enum ProviderKind {
    Env,
    File,
    Keychain,
    Exec,
}

pub open spec fn provider_name(k: ProviderKind) -> Seq<char> {
    match k {
        ProviderKind::Env => "env:NOTION_TOKEN"@,
        ProviderKind::File => "file"@,
        ProviderKind::Keychain => "keychain"@,
        ProviderKind::Exec => "exec:NOTION_TOKEN_CMD"@,
    }
}

impl ProviderKind {
    pub fn name(self) -> (n: &'static str)
        ensures
            n@ == provider_name(self),
    {
        match self {
            ProviderKind::Env => EnvProvider.name(),
            ProviderKind::File => FileProvider.name(),
            ProviderKind::Keychain => KeychainProvider.name(),
            ProviderKind::Exec => ExecProvider.name(),
        }
    }
}

/// A token read from a file or a command: trimmed, and nothing when
/// only whitespace is left.
pub fn clean_token(raw: &str) -> (r: Option<String>)
    ensures
        trimmed(raw@).len() == 0 ==> r is None,
        trimmed(raw@).len() > 0 ==> (r matches Some(t) && t@ == trimmed(raw@)),
{
    let t = trim(raw);
    if t.unicode_len() == 0 {
        None
    } else {
        Some(t)
    }
}

/// What a backend's command printed, as a token: nothing unless the
/// command succeeded and its output is UTF-8; then the trimmed output,
/// nothing when only whitespace is left.
pub fn token_from_output(succeeded: bool, stdout: Vec<u8>) -> (r: Option<String>)
    ensures
        !succeeded ==> r is None,
        succeeded && !vstd::utf8::valid_utf8(stdout@) ==> r is None,
        succeeded && vstd::utf8::valid_utf8(stdout@) ==> ({
            let t = vstd::utf8::decode_utf8(stdout@);
            &&& trimmed(t).len() == 0 ==> r is None
            &&& trimmed(t).len() > 0 ==> (r matches Some(k) && k@ == trimmed(t))
        }),
{
    if !succeeded {
        return None;
    }
    match utf8_text(stdout) {
        Some(t) => clean_token(t.as_str()),
        None => None,
    }
}

/// An ordered chain of backends; the first that yields a token wins.
#[derive(Debug)]
pub struct TokenChain {
    providers: Vec<ProviderKind>,
}

/// The view of an optional text.
pub open spec fn opt_text(s: Option<&str>) -> Option<Seq<char>> {
    match s {
        Some(t) => Some(t@),
        None => None,
    }
}

/// The outcome of a chain over what its backends yielded.
pub struct Resolution {
    pub token: Option<NotionToken>,
    /// The shadowing warning, when more than one backend yielded a token.
    pub warning: Option<String>,
}

/// Index of the first backend that yielded a token, from `i` on.
pub open spec fn first_found(loaded: Seq<Option<String>>, i: int) -> Option<int>
    decreases loaded.len() - i,
{
    if i < 0 || i >= loaded.len() {
        None
    } else if loaded[i] is Some {
        Some(i)
    } else {
        first_found(loaded, i + 1)
    }
}

/// Names of the backends after `w` that yielded a token too, in order.
pub open spec fn shadowed(kinds: Seq<ProviderKind>, loaded: Seq<Option<String>>, w: int, n: int) -> Seq<
    Seq<char>,
>
    decreases n - w,
{
    if n <= w + 1 {
        Seq::empty()
    } else if loaded[n - 1] is Some {
        shadowed(kinds, loaded, w, n - 1).push(provider_name(kinds[n - 1]))
    } else {
        shadowed(kinds, loaded, w, n - 1)
    }
}

pub open spec fn shadow_warning(winner: Seq<char>, shadows: Seq<Seq<char>>) -> Seq<char> {
    "notion-cli: warning: "@ + winner + " token shadows "@ + join_seqs(shadows, ", "@)
        + " entries; using "@ + winner
}

/// The default order: env, file, keychain, exec.
pub open spec fn default_kinds() -> Seq<ProviderKind> {
    seq![ProviderKind::Env, ProviderKind::File, ProviderKind::Keychain, ProviderKind::Exec]
}

/// The backend a chain entry names: `env`, `file`, `keychain` or `exec`.
pub open spec fn kind_named(name: Seq<char>) -> Option<ProviderKind> {
    if name == "env"@ {
        Some(ProviderKind::Env)
    } else if name == "file"@ {
        Some(ProviderKind::File)
    } else if name == "keychain"@ {
        Some(ProviderKind::Keychain)
    } else if name == "exec"@ {
        Some(ProviderKind::Exec)
    } else {
        None
    }
}

/// A text cut at each comma (`str::split(',')`): one more piece than
/// there are commas.
pub open spec fn split_commas(s: Seq<char>) -> Seq<Seq<char>>
    decreases s.len(),
{
    if s.len() == 0 {
        seq![Seq::empty()]
    } else {
        let rest = split_commas(s.drop_last());
        if s.last() == ',' {
            rest.push(Seq::empty())
        } else {
            rest.update(rest.len() - 1, rest.last().push(s.last()))
        }
    }
}

/// The backends a chain order names, each entry trimmed; `None` when an
/// entry names none.
pub open spec fn named_chain(spec: Seq<char>) -> Option<Seq<ProviderKind>> {
    let items = split_commas(spec);
    if forall|j: int| 0 <= j < items.len() ==> (#[trigger] kind_named(trimmed(items[j]))) is Some {
        Some(items.map_values(|it: Seq<char>| kind_named(trimmed(it))->0))
    } else {
        None
    }
}

/// The chain an order setting (such as `keychain,env`) gives: the named
/// backends in the order named, or the default chain when there is no
/// setting or it does not parse.
pub open spec fn chain_of_spec(spec: Option<Seq<char>>) -> Seq<ProviderKind> {
    match spec {
        Some(s) => match named_chain(s) {
            Some(k) => k,
            None => default_kinds(),
        },
        None => default_kinds(),
    }
}

fn kind_of_name(item: &str) -> (r: Option<ProviderKind>)
    ensures
        r == kind_named(trimmed(item@)),
{
    let t = trim(item);
    if text_eq(t.as_str(), "env") {
        Some(ProviderKind::Env)
    } else if text_eq(t.as_str(), "file") {
        Some(ProviderKind::File)
    } else if text_eq(t.as_str(), "keychain") {
        Some(ProviderKind::Keychain)
    } else if text_eq(t.as_str(), "exec") {
        Some(ProviderKind::Exec)
    } else {
        None
    }
}

fn split_at_commas(s: &str) -> (r: Vec<String>)
    ensures
        r@.map_values(|x: String| x@) == split_commas(s@),
{
    let v = chars_of(s);
    let mut done: Vec<String> = Vec::new();
    let mut cur = String::new();
    let mut i: usize = 0;
    assert(v@.subrange(0, 0) =~= Seq::<char>::empty());
    assert(done@.map_values(|x: String| x@).push(cur@) =~= split_commas(Seq::empty()));
    while i < v.len()
        invariant
            i <= v@.len(),
            v@ == s@,
            done@.map_values(|x: String| x@).push(cur@) == split_commas(v@.subrange(0, i as int)),
        decreases v@.len() - i,
    {
        let c = v[i];
        let ghost pre = v@.subrange(0, i as int);
        let ghost next = v@.subrange(0, i + 1);
        assert(next.drop_last() =~= pre);
        assert(next.last() == c);
        let ghost before = done@.map_values(|x: String| x@);
        if c == ',' {
            let finished = cur;
            cur = String::new();
            done.push(finished);
            assert(done@.map_values(|x: String| x@) =~= before.push(finished@));
            assert(done@.map_values(|x: String| x@).push(cur@) =~= before.push(finished@).push(
                Seq::empty(),
            ));
        } else {
            let ghost old_cur = cur@;
            push_char(&mut cur, c);
            assert(done@.map_values(|x: String| x@).push(cur@) =~= before.push(old_cur).update(
                before.len() as int,
                old_cur.push(c),
            ));
        }
        i = i + 1;
    }
    assert(v@.subrange(0, v@.len() as int) =~= v@);
    done.push(cur);
    done
}

impl TokenChain {
    pub closed spec fn kinds(&self) -> Seq<ProviderKind> {
        self.providers@
    }

    /// The chain for an order setting such as `keychain,env` (the
    /// `NOTION_CLI_TOKEN_CHAIN` variable): the named backends in the
    /// order named, each entry trimmed; the default chain when there is
    /// no setting or an entry names no backend.
    pub fn chain_from_spec(spec: Option<&str>) -> (c: TokenChain)
        ensures
            c.kinds() == chain_of_spec(opt_text(spec)),
    {
        let s = match spec {
            Some(s) => s,
            None => return TokenChain::default_chain(),
        };
        assert(opt_text(spec) == Some(s@));
        let items = split_at_commas(s);
        let ghost iv = items@.map_values(|x: String| x@);
        let mut providers: Vec<ProviderKind> = Vec::new();
        let mut j: usize = 0;
        while j < items.len()
            invariant
                j <= items@.len(),
                opt_text(spec) == Some(s@),
                iv == items@.map_values(|x: String| x@),
                iv == split_commas(s@),
                providers@.len() == j,
                forall|k: int| 0 <= k < j ==> (#[trigger] kind_named(trimmed(iv[k]))) is Some,
                forall|k: int| 0 <= k < j ==> #[trigger] providers@[k] == kind_named(trimmed(iv[k]))->0,
            decreases items@.len() - j,
        {
            match kind_of_name(items[j].as_str()) {
                Some(k) => providers.push(k),
                None => {
                    assert(!(kind_named(trimmed(iv[j as int])) is Some));
                    assert(named_chain(s@) is None);
                    return TokenChain::default_chain();
                },
            }
            j = j + 1;
        }
        assert(providers@ =~= iv.map_values(|it: Seq<char>| kind_named(trimmed(it))->0));
        TokenChain { providers }
    }

    /// Default chain order: env → file → keychain → exec.
    pub fn default_chain() -> (c: Self)
        ensures
            c.kinds() == default_kinds(),
    {
        let mut providers: Vec<ProviderKind> = Vec::new();
        providers.push(ProviderKind::Env);
        providers.push(ProviderKind::File);
        providers.push(ProviderKind::Keychain);
        providers.push(ProviderKind::Exec);
        TokenChain { providers }
    }

    /// The backends, in the order they are consulted.
    pub fn providers(&self) -> (r: &Vec<ProviderKind>)
        ensures
            r@ == self.kinds(),
    {
        &self.providers
    }

    /// Resolve from what each backend yielded (`loaded[i]` for the
    /// `i`-th backend): the first token wins, and the later backends
    /// that yielded one are named in the shadowing warning.
    pub fn resolve(&self, loaded: Vec<Option<String>>) -> (r: Resolution)
        requires
            loaded@.len() == self.kinds().len(),
        ensures
            first_found(loaded@, 0) is None ==> r.token is None && r.warning is None,
            first_found(loaded@, 0) matches Some(w) ==> {
                let shadows = shadowed(self.kinds(), loaded@, w, loaded@.len() as int);
                &&& (r.token matches Some(t) && loaded@[w] matches Some(s) && t@ == s@)
                &&& shadows.len() == 0 ==> r.warning is None
                &&& shadows.len() > 0 ==> (r.warning matches Some(m) && m@ == shadow_warning(
                    provider_name(self.kinds()[w]),
                    shadows,
                ))
            },
    {
        let n = loaded.len();
        let mut winner: Option<(usize, String)> = None;
        let mut shadows: Vec<String> = Vec::new();
        let mut i: usize = 0;
        while i < n
            invariant
                i <= n,
                n == loaded@.len(),
                n == self.kinds().len(),
                self.providers@ == self.kinds(),
                winner is None ==> first_found(loaded@, 0) == first_found(loaded@, i as int),
                winner is None ==> shadows@.len() == 0,
                winner matches Some((w, t)) ==> w < i && first_found(loaded@, 0) == Some(w as int)
                    && (loaded@[w as int] matches Some(s) && t@ == s@) && shadows@.map_values(
                    |s: String| s@,
                ) == shadowed(self.kinds(), loaded@, w as int, i as int),
            decreases n - i,
        {
            match &loaded[i] {
                Some(s) => {
                    match &winner {
                        None => {
                            winner = Some((i, s.clone()));
                            assert(shadows@.map_values(|s: String| s@) =~= Seq::<
                                Seq<char>,
                            >::empty());
                        },
                        Some((w, _)) => {
                            let ghost before = shadows@.map_values(|s: String| s@);
                            let name = self.providers[i].name();
                            shadows.push(crate::text::owned(name));
                            assert(shadows@.map_values(|s: String| s@) =~= before.push(
                                provider_name(self.kinds()[i as int]),
                            ));
                        },
                    }
                },
                None => {},
            }
            i = i + 1;
        }
        match winner {
            None => Resolution { token: None, warning: None },
            Some((w, t)) => {
                let warning = if shadows.len() == 0 {
                    None
                } else {
                    let name = self.providers[w].name();
                    let mut m = concat("notion-cli: warning: ", name);
                    m.append(" token shadows ");
                    let list = join(&shadows, ", ");
                    m.append(list.as_str());
                    m.append(" entries; using ");
                    m.append(name);
                    Some(m)
                };
                Resolution { token: Some(NotionToken::new(t)), warning }
            },
        }
    }
}

} // verus!
