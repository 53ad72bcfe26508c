use vstd::prelude::*;

verus! {

/// The prefix that the dashboard's client routes carry and that assets are stored without.
pub open spec fn app_prefix() -> Seq<char> {
    seq!['a', 'p', 'p', '/']
}

/// `path` with every occurrence of `app/` removed, scanning from the left.
pub open spec fn without_app_prefix(path: Seq<char>) -> Seq<char>
    decreases path.len(),
{
    if path.len() == 0 {
        Seq::empty()
    } else if path.len() >= 4 && path.take(4) == app_prefix() {
        without_app_prefix(path.skip(4))
    } else {
        seq![path[0]] + without_app_prefix(path.skip(1))
    }
}

/// `path` ends with `suffix`.
pub open spec fn ends_with(path: Seq<char>, suffix: Seq<char>) -> bool {
    path.len() >= suffix.len() && path.subrange(path.len() - suffix.len(), path.len() as int)
        == suffix
}

/// A path that ends with `suffix` after its first `k` characters are dropped ends with it too.
proof fn lemma_suffix_of_tail(path: Seq<char>, k: int, suffix: Seq<char>)
    requires
        0 <= k <= path.len(),
        ends_with(path.skip(k), suffix),
    ensures
        ends_with(path, suffix),
{
    let tail = path.skip(k);
    assert(tail.subrange(tail.len() - suffix.len(), tail.len() as int) =~= path.subrange(
        path.len() - suffix.len(),
        path.len() as int,
    ));
}

/// An `app/` that starts the path is removed, whatever follows it.
pub proof fn lemma_leading_app_removed(rest: Seq<char>)
    ensures
        without_app_prefix(app_prefix() + rest) == without_app_prefix(rest),
{
    let path = app_prefix() + rest;
    assert(path.take(4) =~= app_prefix());
    assert(path.skip(4) =~= rest);
}

/// An `app/` that ends the path is removed like any other, unless it completes an `app/` begun
/// by the end of `path`.
pub proof fn lemma_trailing_app_removed(path: Seq<char>)
    requires
        !ends_with(path, seq!['a']),
        !ends_with(path, seq!['a', 'p']),
        !ends_with(path, seq!['a', 'p', 'p']),
    ensures
        without_app_prefix(path + app_prefix()) == without_app_prefix(path),
    decreases path.len(),
{
    let full = path + app_prefix();
    if path.len() == 0 {
        assert(full =~= app_prefix() + path);
        lemma_leading_app_removed(path);
    } else if path.len() >= 4 && path.take(4) == app_prefix() {
        assert(full.take(4) =~= path.take(4));
        assert(full.skip(4) =~= path.skip(4) + app_prefix());
        if ends_with(path.skip(4), seq!['a']) {
            lemma_suffix_of_tail(path, 4, seq!['a']);
        }
        if ends_with(path.skip(4), seq!['a', 'p']) {
            lemma_suffix_of_tail(path, 4, seq!['a', 'p']);
        }
        if ends_with(path.skip(4), seq!['a', 'p', 'p']) {
            lemma_suffix_of_tail(path, 4, seq!['a', 'p', 'p']);
        }
        lemma_trailing_app_removed(path.skip(4));
    } else {
        assert(!(full.len() >= 4 && full.take(4) == app_prefix())) by {
            if full.take(4) == app_prefix() {
                if path.len() >= 4 {
                    assert(full.take(4) =~= path.take(4));
                } else {
                    assert(full.take(4)[3] == full[3]);
                    assert(app_prefix()[3] == '/');
                }
            }
        }
        assert(full.skip(1) =~= path.skip(1) + app_prefix());
        if ends_with(path.skip(1), seq!['a']) {
            lemma_suffix_of_tail(path, 1, seq!['a']);
        }
        if ends_with(path.skip(1), seq!['a', 'p']) {
            lemma_suffix_of_tail(path, 1, seq!['a', 'p']);
        }
        if ends_with(path.skip(1), seq!['a', 'p', 'p']) {
            lemma_suffix_of_tail(path, 1, seq!['a', 'p', 'p']);
        }
        lemma_trailing_app_removed(path.skip(1));
        assert(full[0] == path[0]);
    }
}

/// The name of the embedded asset that answers a request for `request_path`: the path without
/// its leading character, with every `app/` in it removed.
pub fn asset_path(request_path: &str) -> (r: String)
    requires
        request_path@.len() >= 1,
    ensures
        r@ == without_app_prefix(request_path@.skip(1)),
{
    let len = request_path.unicode_len();
    let ghost rest = request_path@.skip(1);
    let mut result = String::new();
    let mut i: usize = 1;
    assert(request_path@.skip(1) =~= rest);
    while i < len
        invariant
            1 <= i <= len,
            len == request_path@.len(),
            rest == request_path@.skip(1),
            result@ + without_app_prefix(request_path@.skip(i as int)) == without_app_prefix(rest),
        decreases len - i,
    {
        let ghost tail = request_path@.skip(i as int);
        if len - i >= 4 && request_path.get_char(i) == 'a' && request_path.get_char(i + 1) == 'p'
            && request_path.get_char(i + 2) == 'p' && request_path.get_char(i + 3) == '/' {
            assert(tail.take(4) =~= app_prefix());
            assert(tail.skip(4) =~= request_path@.skip(i + 4));
            i = i + 4;
        } else {
            let piece = request_path.substring_char(i, i + 1);
            assert(!(tail.len() >= 4 && tail.take(4) == app_prefix())) by {
                if tail.len() >= 4 && tail.take(4) == app_prefix() {
                    assert(tail.take(4)[0] == tail[0]);
                    assert(tail.take(4)[1] == tail[1]);
                    assert(tail.take(4)[2] == tail[2]);
                    assert(tail.take(4)[3] == tail[3]);
                }
            }
            assert(tail.skip(1) =~= request_path@.skip(i + 1));
            assert(piece@ =~= seq![tail[0]]);
            result.append(piece);
            i = i + 1;
            assert(result@ + without_app_prefix(request_path@.skip(i as int)) =~= without_app_prefix(rest));
        }
    }
    assert(request_path@.skip(i as int) =~= Seq::<char>::empty());
    assert(result@ =~= without_app_prefix(rest));
    result
}

/// The MIME type that `mime_guess` gives a file by the extension of its path, or
/// `application/octet-stream` when it knows none.
pub uninterp spec fn guessed_content_type(path: Seq<char>) -> Seq<char>;

/// Calls `mime_guess::from_path(path).first_or_octet_stream()` and writes the MIME type out.
/// The crate guesses from the extension alone, with no disk access, so the result depends on the
/// path only; which type each extension maps to is the crate's table and is not stated here.
#[verifier::external_body]
fn content_type_of(path: &str) -> (r: String)
    ensures
        r@ == guessed_content_type(path@),
{
    mime_guess::from_path(path).first_or_octet_stream().to_string()
}

/// The embedded asset that answers a request for `request_path`, and the content type it is
/// served with: the type guessed from the asset's name.
pub fn static_asset(request_path: &str) -> (r: (String, String))
    requires
        request_path@.len() >= 1,
    ensures
        r.0@ == without_app_prefix(request_path@.skip(1)),
        r.1@ == guessed_content_type(r.0@),
{
    let name = asset_path(request_path);
    let content_type = content_type_of(name.as_str());
    (name, content_type)
}

/// The request path that is served when an asset is not found.
pub open spec fn fallback_path() -> Seq<char> {
    seq!['/', 'i', 'n', 'd', 'e', 'x', '.', 'h', 't', 'm', 'l']
}

/// How a request for a static file is answered, once the asset has been looked up.
pub enum StaticAnswer<C> {
    /// The asset's content, served with this content type.
    Serve(C, String),
    /// The asset is missing: answer as a request for this path.
    Fallback(String),
}

/// A found asset is served with its content type; a missing one falls back to `/index.html`.
pub fn static_answer<C>(content_type: String, content: Option<C>) -> (r: StaticAnswer<C>)
    ensures
        match content {
            Some(c) => r matches StaticAnswer::Serve(served, ty) && served == c && ty@
                == content_type@,
            None => r matches StaticAnswer::Fallback(path) && path@ == fallback_path(),
        },
{
    match content {
        Some(c) => StaticAnswer::Serve(c, content_type),
        None => {
            let path = String::from_str("/index.html");
            proof {
                reveal_strlit("/index.html");
            }
            assert(path@ =~= fallback_path());
            StaticAnswer::Fallback(path)
        },
    }
}

} // verus!
