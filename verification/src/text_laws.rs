//! What the string operations, the object keys and the naming of definition
//! files give, stated over their parts.
use crate::keys::{
    current_key_spec, current_object_body_spec, definition_key_spec, object_url_spec,
};
use crate::text::{
    file_extension, is_white_space, last_dot, lemma_last_dot_bounds, strip_suffix, trim_end,
};
use crate::upload::{app_id_spec, is_jsonnet_spec};
use vstd::prelude::*;
use vstd::string::*;
use vstd::utf8::*;

verus! {

/// Trimming keeps a prefix of the text, removes only white space, and leaves
/// no white space at the end.
pub proof fn lemma_trim_end_removes_trailing_white_space(s: Seq<char>)
    ensures
        trim_end(s).len() <= s.len(),
        trim_end(s) == s.subrange(0, trim_end(s).len() as int),
        forall|i: int| trim_end(s).len() <= i < s.len() ==> is_white_space(#[trigger] s[i]),
        trim_end(s).len() == 0 || !is_white_space(trim_end(s).last()),
    decreases s.len(),
{
    if s.len() > 0 && is_white_space(s.last()) {
        let t = s.drop_last();
        lemma_trim_end_removes_trailing_white_space(t);
        let n = trim_end(t).len() as int;
        assert(trim_end(s) == trim_end(t));
        assert(t.subrange(0, n) =~= s.subrange(0, n));
        assert forall|i: int| n <= i < s.len() implies is_white_space(#[trigger] s[i]) by {
            if i < s.len() - 1 {
                assert(s[i] == t[i]);
            }
        }
    } else {
        assert(s.subrange(0, s.len() as int) =~= s);
    }
}

/// An extension is what follows a `.` that is not the first character of the
/// name, and holds no `.` itself; a name has no extension exactly when it is
/// `..` or has no `.` after its first character.
pub proof fn lemma_file_extension_parts(name: Seq<char>)
    ensures
        match file_extension(name) {
            Some(e) => {
                let i = name.len() - e.len() - 1;
                &&& 1 <= i
                &&& name[i] == '.'
                &&& name.subrange(i + 1, name.len() as int) == e
                &&& forall|j: int| 0 <= j < e.len() ==> #[trigger] e[j] != '.'
            },
            None => name == seq!['.', '.'] || forall|j: int|
                1 <= j < name.len() ==> #[trigger] name[j] != '.',
        },
{
    lemma_last_dot_bounds(name);
    let i = last_dot(name);
    match file_extension(name) {
        Some(e) => {
            assert forall|j: int| 0 <= j < e.len() implies #[trigger] e[j] != '.' by {
                assert(e[j] == name[i + 1 + j]);
            }
        },
        None => {
        },
    }
}

/// Stripping a suffix gives the text that the suffix completes, and fails
/// exactly when the text does not end with the suffix.
pub proof fn lemma_strip_suffix_parts(s: Seq<char>, suffix: Seq<char>)
    ensures
        strip_suffix(s, suffix) matches Some(p) ==> p + suffix == s,
        strip_suffix(s, suffix) is None <==> !exists|p: Seq<char>| p + suffix == s,
{
    if let Some(p) = strip_suffix(s, suffix) {
        assert(p + suffix =~= s);
    } else {
        if exists|p: Seq<char>| p + suffix == s {
            let p = choose|p: Seq<char>| p + suffix == s;
            assert(s.subrange(s.len() - suffix.len(), s.len() as int) =~= suffix);
        }
    }
}

/// The application of a definition file is its name without `.jsonnet`:
/// appending `.jsonnet` to it gives the file name back, and the file named
/// after an application defines that application.
pub proof fn lemma_app_id_is_file_stem(file_name: Seq<char>, app_id: Seq<char>)
    ensures
        app_id_spec(file_name) matches Some(a) ==> a + ".jsonnet"@ == file_name,
        app_id_spec(app_id + ".jsonnet"@) == Some(app_id),
{
    lemma_strip_suffix_parts(file_name, ".jsonnet"@);
    let s = app_id + ".jsonnet"@;
    assert(s.subrange(s.len() - ".jsonnet"@.len(), s.len() as int) =~= ".jsonnet"@);
    assert(s.subrange(0, s.len() - ".jsonnet"@.len()) =~= app_id);
}

/// The key of a definition is the prefix, a `/`, the whole revision, a `/`,
/// the application and `.json`, each at its place.
pub proof fn lemma_definition_key_parts(prefix: Seq<char>, revision: Seq<char>, app_id: Seq<char>)
    ensures
        ({
            let k = definition_key_spec(prefix, revision, app_id);
            let p = prefix.len() as int;
            let r = revision.len() as int;
            let a = app_id.len() as int;
            &&& k.len() == p + r + a + 7
            &&& k.subrange(0, p) == prefix
            &&& k[p] == '/'
            &&& k.subrange(p + 1, p + 1 + r) == revision
            &&& k[p + 1 + r] == '/'
            &&& k.subrange(p + 2 + r, p + 2 + r + a) == app_id
            &&& k.subrange(p + 2 + r + a, k.len() as int) == seq!['.', 'j', 's', 'o', 'n']
        }),
{
    reveal_strlit("/");
    reveal_strlit(".json");
    let k = definition_key_spec(prefix, revision, app_id);
    let p = prefix.len() as int;
    let r = revision.len() as int;
    let a = app_id.len() as int;
    assert(k =~= prefix + seq!['/'] + revision + seq!['/'] + app_id + seq!['.', 'j', 's', 'o', 'n']);
    assert(k.subrange(0, p) =~= prefix);
    assert(k.subrange(p + 1, p + 1 + r) =~= revision);
    assert(k.subrange(p + 2 + r, p + 2 + r + a) =~= app_id);
    assert(k.subrange(p + 2 + r + a, k.len() as int) =~= seq!['.', 'j', 's', 'o', 'n']);
}

/// Two applications, or two revisions without `/`, never share a definition
/// key under the same prefix.
pub proof fn lemma_definition_keys_distinct(
    prefix: Seq<char>,
    revision1: Seq<char>,
    app_id1: Seq<char>,
    revision2: Seq<char>,
    app_id2: Seq<char>,
)
    requires
        forall|i: int| 0 <= i < revision1.len() ==> revision1[i] != '/',
        forall|i: int| 0 <= i < revision2.len() ==> revision2[i] != '/',
        definition_key_spec(prefix, revision1, app_id1) == definition_key_spec(
            prefix,
            revision2,
            app_id2,
        ),
    ensures
        revision1 == revision2,
        app_id1 == app_id2,
{
    lemma_definition_key_parts(prefix, revision1, app_id1);
    lemma_definition_key_parts(prefix, revision2, app_id2);
    let k = definition_key_spec(prefix, revision1, app_id1);
    let p = prefix.len() as int;
    let r1 = revision1.len() as int;
    let r2 = revision2.len() as int;
    if r1 < r2 {
        assert(k[p + 1 + r1] == revision2[r1]) by {
            assert(k.subrange(p + 1, p + 1 + r2)[r1] == k[p + 1 + r1]);
        }
    } else if r2 < r1 {
        assert(k[p + 1 + r2] == revision1[r2]) by {
            assert(k.subrange(p + 1, p + 1 + r1)[r2] == k[p + 1 + r2]);
        }
    }
    assert(r1 == r2);
    assert(app_id1.len() == app_id2.len());
}

/// The key naming the current revision is the prefix followed by `/current`.
pub proof fn lemma_current_key_parts(prefix: Seq<char>)
    ensures
        current_key_spec(prefix) == prefix + seq!['/', 'c', 'u', 'r', 'r', 'e', 'n', 't'],
{
    reveal_strlit("/current");
    assert("/current"@ =~= seq!['/', 'c', 'u', 'r', 'r', 'e', 'n', 't']);
}

/// The URL of an object is `s3://`, the bucket, a `/` and the whole key.
pub proof fn lemma_object_url_parts(bucket: Seq<char>, key: Seq<char>)
    ensures
        object_url_spec(bucket, key) == seq!['s', '3', ':', '/', '/'] + bucket + seq!['/'] + key,
{
    reveal_strlit("s3://");
    reveal_strlit("/");
    assert("s3://"@ =~= seq!['s', '3', ':', '/', '/']);
    assert("/"@ =~= seq!['/']);
}

/// The object naming the current revision holds well-formed UTF-8 that reads
/// as the revision followed by a line feed.
pub proof fn lemma_current_object_body_text(revision: Seq<char>)
    ensures
        valid_utf8(current_object_body_spec(revision)),
        decode_utf8(current_object_body_spec(revision)) == revision.push('\n'),
{
    reveal_strlit("\n");
    assert(revision + "\n"@ =~= revision.push('\n'));
    encode_utf8_valid_utf8(revision + "\n"@);
    encode_utf8_decode_utf8(revision + "\n"@);
}

/// A file is a Jsonnet source exactly when its name is a non-empty name
/// followed by `.jsonnet`.
pub proof fn lemma_jsonnet_iff_named_source(file_name: Seq<char>)
    ensures
        is_jsonnet_spec(file_name) <==> exists|a: Seq<char>|
            a.len() >= 1 && #[trigger] (a + ".jsonnet"@) == file_name,
{
    reveal_strlit(".jsonnet");
    reveal_strlit("jsonnet");
    lemma_file_extension_parts(file_name);
    lemma_last_dot_bounds(file_name);
    let n = file_name.len() as int;
    if is_jsonnet_spec(file_name) {
        let i = n - 8;
        let a = file_name.subrange(0, i);
        assert(a + ".jsonnet"@ =~= file_name) by {
            assert forall|j: int| i <= j < n implies file_name[j] == (a + ".jsonnet"@)[j] by {
                if j > i {
                    assert(file_name.subrange(i + 1, n)[j - i - 1] == file_name[j]);
                }
            }
        }
    }
    if exists|a: Seq<char>| a.len() >= 1 && #[trigger] (a + ".jsonnet"@) == file_name {
        let a = choose|a: Seq<char>| a.len() >= 1 && #[trigger] (a + ".jsonnet"@) == file_name;
        let i = a.len() as int;
        assert(file_name[i] == '.');
        assert forall|j: int| i < j < n implies #[trigger] file_name[j] != '.' by {
            assert(file_name[j] == ".jsonnet"@[j - i]);
        }
        let k = last_dot(file_name);
        assert(k == i);
        assert(file_name != seq!['.', '.']) by {
            if file_name == seq!['.', '.'] {
                assert(file_name.len() == 2);
            }
        }
        assert(file_name.subrange(i + 1, n) =~= "jsonnet"@);
    }
}

} // verus!
