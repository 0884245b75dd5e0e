use vstd::prelude::*;
use vstd::string::*;

verus! {

/// What is added to the stem of a file name that is already taken.
pub const DECRYPT_SUFFIX: &'static str = "-decrypt";

/// The index, among the first `end` characters of a file name, of the dot that starts
/// its extension: the last dot that is not the name's first character; 0 where there
/// is none.
pub open spec fn extension_dot(name: Seq<char>, end: int) -> int
    decreases end,
{
    if end <= 1 {
        0
    } else if name[end - 1] == '.' {
        end - 1
    } else {
        extension_dot(name, end - 1)
    }
}

/// A file name without its extension.
pub open spec fn file_stem(name: Seq<char>) -> Seq<char> {
    let dot = extension_dot(name, name.len() as int);
    if dot > 0 {
        name.subrange(0, dot)
    } else {
        name
    }
}

/// The extension of a file name with its dot; empty where it has none.
pub open spec fn file_extension(name: Seq<char>) -> Seq<char> {
    name.subrange(file_stem(name).len() as int, name.len() as int)
}

/// The name tried after `name` is taken: `-decrypt` added to its stem, before its
/// extension.
pub open spec fn decrypt_candidate(name: Seq<char>) -> Seq<char> {
    let dot = extension_dot(name, name.len() as int);
    if dot > 0 {
        name.subrange(0, dot) + DECRYPT_SUFFIX@ + name.subrange(dot, name.len() as int)
    } else {
        name + DECRYPT_SUFFIX@
    }
}

/// The index of the dot that starts the extension of `name`; 0 where it has none.
fn find_extension_dot(name: &str) -> (r: usize)
    ensures
        r as int == extension_dot(name@, name@.len() as int),
        r < name@.len() || r == 0,
{
    let len = name.unicode_len();
    let mut i: usize = len;
    while i > 1
        invariant
            i <= len,
            len == name@.len(),
            extension_dot(name@, len as int) == extension_dot(name@, i as int),
        decreases i,
    {
        if name.get_char(i - 1) == '.' {
            return i - 1;
        }
        i = i - 1;
    }
    0
}

/// The name of a file without its last extension: the name under which the
/// plaintext recovered from the encrypted file `name` is written first.
pub fn strip_extension(name: &str) -> (r: String)
    ensures
        r@ == file_stem(name@),
{
    let dot = find_extension_dot(name);
    if dot > 0 {
        String::from_str(name.substring_char(0, dot))
    } else {
        String::from_str(name)
    }
}

/// The name tried after `name` is taken by an existing file: `-decrypt` is added to
/// the stem, and the extension is kept.
pub fn next_decrypt_candidate(name: &str) -> (r: String)
    ensures
        r@ == decrypt_candidate(name@),
        r@.len() == name@.len() + DECRYPT_SUFFIX@.len(),
{
    let dot = find_extension_dot(name);
    if dot > 0 {
        let mut candidate = String::from_str(name.substring_char(0, dot));
        candidate.append(DECRYPT_SUFFIX);
        candidate.append(name.substring_char(dot, name.unicode_len()));
        candidate
    } else {
        let mut candidate = String::from_str(name);
        candidate.append(DECRYPT_SUFFIX);
        candidate
    }
}

/// `extension_dot` finds the last dot at or after index 1 and before `end`.
proof fn lemma_extension_dot_is_last(name: Seq<char>, end: int, k: int)
    requires
        end <= name.len(),
        1 <= k < end,
        name[k] == '.',
        forall|i: int| k < i < end ==> name[i] != '.',
    ensures
        extension_dot(name, end) == k,
    decreases end,
{
    if end - 1 != k {
        lemma_extension_dot_is_last(name, end - 1, k);
    }
}

/// `extension_dot` is 0 where no dot stands at or after index 1 and before `end`.
proof fn lemma_extension_dot_none(name: Seq<char>, end: int)
    requires
        end <= name.len(),
        forall|i: int| 1 <= i < end ==> name[i] != '.',
    ensures
        extension_dot(name, end) == 0,
    decreases end,
{
    if end > 1 {
        lemma_extension_dot_none(name, end - 1);
    }
}

/// What `extension_dot` finds: 0, or a dot after which no dot follows before `end`.
proof fn lemma_extension_dot_facts(name: Seq<char>, end: int)
    requires
        end <= name.len(),
    ensures
        extension_dot(name, end) == 0 || (1 <= extension_dot(name, end) < end
            && name[extension_dot(name, end)] == '.'),
        forall|i: int| extension_dot(name, end) < i < end && i >= 1 ==> name[i] != '.',
    decreases end,
{
    if end > 1 && name[end - 1] != '.' {
        lemma_extension_dot_facts(name, end - 1);
    }
}

/// Taking the next candidate adds `-decrypt` to the stem and keeps the extension, so
/// each further candidate adds one more `-decrypt` to the stem.
pub proof fn lemma_decrypt_candidate_extends_stem(name: Seq<char>)
    ensures
        file_stem(decrypt_candidate(name)) == file_stem(name) + DECRYPT_SUFFIX@,
        file_extension(decrypt_candidate(name)) == file_extension(name),
{
    reveal_strlit("-decrypt");
    let n = name.len() as int;
    let dot = extension_dot(name, n);
    let candidate = decrypt_candidate(name);
    let m = candidate.len() as int;
    let suffix = DECRYPT_SUFFIX@;
    lemma_extension_dot_facts(name, n);
    assert(forall|i: int| 0 <= i < suffix.len() ==> suffix[i] != '.');
    if dot > 0 {
        let k = dot + suffix.len();
        assert(candidate[k] == name[dot]);
        assert forall|i: int| k < i < m implies candidate[i] != '.' by {
            assert(candidate[i] == name[i - suffix.len()]);
        }
        lemma_extension_dot_is_last(candidate, m, k);
        assert(file_stem(candidate) =~= file_stem(name) + suffix);
        assert(file_extension(candidate) =~= file_extension(name));
    } else {
        assert forall|i: int| 1 <= i < m implies candidate[i] != '.' by {
            if i >= n {
                assert(candidate[i] == suffix[i - n]);
            } else {
                assert(candidate[i] == name[i]);
            }
        }
        lemma_extension_dot_none(candidate, m);
        assert(file_extension(candidate) =~= file_extension(name));
    }
}

} // verus!
