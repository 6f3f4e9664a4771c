use vstd::prelude::*;

verus! {

/// Whether two strings hold the same characters.
pub fn same_text(a: &str, b: &str) -> (r: bool)
    ensures
        r == (a@ == b@),
{
    let x = a.to_owned();
    let y = b.to_owned();
    x == y
}

/// The elements that are always self-closing.
pub open spec fn is_void_name(n: Seq<char>) -> bool {
    ||| n == "area"@
    ||| n == "base"@
    ||| n == "br"@
    ||| n == "col"@
    ||| n == "embed"@
    ||| n == "hr"@
    ||| n == "img"@
    ||| n == "input"@
    ||| n == "link"@
    ||| n == "meta"@
    ||| n == "param"@
    ||| n == "source"@
    ||| n == "track"@
    ||| n == "wbr"@
}

/// The elements whose children are opaque character data.
pub open spec fn is_raw_text_name(n: Seq<char>) -> bool {
    n == "script"@ || n == "style"@
}

/// The attribute key that makes the raw text of an element a host expression.
pub open spec fn is_directive_name(n: Seq<char>) -> bool {
    n == "_hr_no_raw"@
}

/// No raw-text element is a void element.
pub proof fn lemma_raw_text_not_void(n: Seq<char>)
    requires
        is_raw_text_name(n),
    ensures
        !is_void_name(n),
{
    reveal_strlit("area");
    reveal_strlit("base");
    reveal_strlit("br");
    reveal_strlit("col");
    reveal_strlit("embed");
    reveal_strlit("hr");
    reveal_strlit("img");
    reveal_strlit("input");
    reveal_strlit("link");
    reveal_strlit("meta");
    reveal_strlit("param");
    reveal_strlit("source");
    reveal_strlit("track");
    reveal_strlit("wbr");
    reveal_strlit("script");
    reveal_strlit("style");
    if n == "script"@ {
        assert(n[0] == 's' && n[1] == 'c');
    } else {
        assert(n[0] == 's' && n[1] == 't');
    }
}

/// The names of the void elements, for a parser's configuration.
pub fn void_elements() -> (r: Vec<&'static str>)
    ensures
        r@.len() == 14,
        forall|i: int| 0 <= i < r@.len() ==> is_void_name(#[trigger] r@[i]@),
        forall|n: Seq<char>| is_void_name(n) ==> exists|i: int| 0 <= i < r@.len() && r@[i]@ == n,
{
    let r = vec![
        "area", "base", "br", "col", "embed", "hr", "img", "input", "link", "meta", "param",
        "source", "track", "wbr",
    ];
    assert forall|n: Seq<char>| is_void_name(n) implies exists|i: int|
        0 <= i < r@.len() && r@[i]@ == n by {
        if n == "area"@ { assert(r@[0]@ == n); }
        else if n == "base"@ { assert(r@[1]@ == n); }
        else if n == "br"@ { assert(r@[2]@ == n); }
        else if n == "col"@ { assert(r@[3]@ == n); }
        else if n == "embed"@ { assert(r@[4]@ == n); }
        else if n == "hr"@ { assert(r@[5]@ == n); }
        else if n == "img"@ { assert(r@[6]@ == n); }
        else if n == "input"@ { assert(r@[7]@ == n); }
        else if n == "link"@ { assert(r@[8]@ == n); }
        else if n == "meta"@ { assert(r@[9]@ == n); }
        else if n == "param"@ { assert(r@[10]@ == n); }
        else if n == "source"@ { assert(r@[11]@ == n); }
        else if n == "track"@ { assert(r@[12]@ == n); }
        else { assert(r@[13]@ == n); }
    }
    r
}

/// The names of the raw-text elements, for a parser's configuration.
pub fn raw_text_elements() -> (r: Vec<&'static str>)
    ensures
        r@.len() == 2,
        r@[0]@ == "script"@,
        r@[1]@ == "style"@,
{
    vec!["script", "style"]
}

/// Whether an element of this name is always self-closing.
pub fn is_void_element(name: &str) -> (r: bool)
    ensures
        r == is_void_name(name@),
{
    same_text(name, "area") || same_text(name, "base") || same_text(name, "br")
        || same_text(name, "col") || same_text(name, "embed") || same_text(name, "hr")
        || same_text(name, "img") || same_text(name, "input") || same_text(name, "link")
        || same_text(name, "meta") || same_text(name, "param") || same_text(name, "source")
        || same_text(name, "track") || same_text(name, "wbr")
}

/// Whether the children of an element of this name are raw text.
pub fn is_raw_text_element(name: &str) -> (r: bool)
    ensures
        r == is_raw_text_name(name@),
{
    same_text(name, "script") || same_text(name, "style")
}

/// Whether an attribute key is the raw-text directive.
pub fn is_directive(name: &str) -> (r: bool)
    ensures
        r == is_directive_name(name@),
{
    same_text(name, "_hr_no_raw")
}

} // verus!
