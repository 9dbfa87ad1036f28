//! Package URLs.
use vstd::prelude::*;

verus! {

/// The URL of a package, whatever its version.
#[derive(Debug)]
pub struct Purl {
    pub ty: String,
    pub namespace: Option<String>,
    pub name: String,
}

pub struct PurlView {
    pub ty: Seq<char>,
    pub namespace: Option<Seq<char>>,
    pub name: Seq<char>,
}

/// The characters of a text that may be missing.
pub open spec fn optional_text(text: Option<String>) -> Option<Seq<char>> {
    match text {
        Some(text) => Some(text@),
        None => None,
    }
}

impl View for Purl {
    type V = PurlView;

    open spec fn view(&self) -> PurlView {
        PurlView {
            ty: self.ty@,
            namespace: optional_text(self.namespace),
            name: self.name@,
        }
    }
}

impl PurlView {
    /// The text of the URL: the type, the namespace if there is one, and the name, divided by
    /// slashes.
    pub open spec fn text(self) -> Seq<char> {
        match self.namespace {
            Some(namespace) => "pkg://"@ + self.ty + "/"@ + namespace + "/"@ + self.name,
            None => "pkg://"@ + self.ty + "/"@ + self.name,
        }
    }
}

impl Purl {
    /// The text of the URL.
    pub fn to_string(&self) -> (text: String)
        ensures
            text@ == self@.text(),
            text@ == match self.namespace {
                Some(namespace) => "pkg://"@ + self.ty@ + "/"@ + namespace@ + "/"@ + self.name@,
                None => "pkg://"@ + self.ty@ + "/"@ + self.name@,
            },
    {
        let mut text = "pkg://".to_string();
        text.append(self.ty.as_str());
        if let Some(namespace) = &self.namespace {
            text.append("/");
            text.append(namespace.as_str());
        }
        text.append("/");
        text.append(self.name.as_str());
        text
    }
}

/// Whether a text is one segment of a path.
pub open spec fn is_segment(text: Seq<char>) -> bool {
    !text.contains('/')
}

/// A URL can be read off from its two ends. It begins with the scheme, the type and a slash. It
/// ends with a slash and the name. What lies between is the namespace, with a slash before it, and
/// nothing if there is none. This holds whatever the three are.
pub proof fn url_is_type_namespace_name(url: PurlView)
    ensures
        url.text().take(6) == seq!['p', 'k', 'g', ':', '/', '/'],
        url.text().subrange(6, 6int + url.ty.len()) == url.ty,
        url.text()[6int + url.ty.len()] == '/',
        url.text()[url.text().len() - url.name.len() - 1] == '/',
        url.text().skip(url.text().len() - url.name.len()) == url.name,
        match url.namespace {
            Some(namespace) => {
                &&& url.text().len() == 6int + url.ty.len() + 1 + namespace.len() + 1
                    + url.name.len()
                &&& url.text().subrange(
                    6int + url.ty.len() + 1,
                    6int + url.ty.len() + 1 + namespace.len(),
                ) == namespace
            },
            None => url.text().len() == 6int + url.ty.len() + 1 + url.name.len(),
        },
{
    reveal_strlit("pkg://");
    reveal_strlit("/");
    let text = url.text();
    assert(text.take(6) =~= seq!['p', 'k', 'g', ':', '/', '/']);
    assert(text.subrange(6, 6int + url.ty.len()) =~= url.ty);
    assert(text.skip(text.len() - url.name.len()) =~= url.name);
    if let Some(namespace) = url.namespace {
        let begin = 7int + url.ty.len();
        assert(text.subrange(begin, begin + namespace.len()) =~= namespace);
    }
}

/// What is proved of a URL as a value holds of its parts: nothing of them is left out.
pub proof fn url_is_seen_whole(url: Purl)
    ensures
        url@.ty == url.ty@,
        url@.name == url.name@,
        url@.namespace is Some <==> url.namespace is Some,
        url.namespace matches Some(namespace) ==> url@.namespace == Some(namespace@),
{
}

/// Two packages have one URL only if they are the same package, as long as neither a type nor a
/// name holds a slash. A namespace may hold any.
pub proof fn package_urls_differ(a: PurlView, b: PurlView)
    requires
        is_segment(a.ty),
        is_segment(b.ty),
        is_segment(a.name),
        is_segment(b.name),
        a.text() == b.text(),
    ensures
        a == b,
{
    reveal_strlit("pkg://");
    reveal_strlit("/");
    let t = a.text();
    let p = a.ty.len();
    let q = b.ty.len();
    // The type ends at the first slash behind the scheme.
    assert(a.text()[6 + p as int] == '/' && b.text()[6 + q as int] == '/');
    assert(forall|i: int| 0 <= i < p ==> a.text()[6 + i] == #[trigger] a.ty[i]);
    assert(forall|i: int| 0 <= i < q ==> b.text()[6 + i] == #[trigger] b.ty[i]);
    assert(p == q) by {
        if p < q {
            assert(b.ty[p as int] == '/');
        }
        if q < p {
            assert(a.ty[q as int] == '/');
        }
    }
    assert(a.ty =~= b.ty);
    // The name begins behind the last slash.
    let n = t.len();
    let k = a.name.len();
    let l = b.name.len();
    assert(a.text()[n - k - 1] == '/' && b.text()[n - l - 1] == '/');
    assert(forall|i: int| 0 <= i < k ==> a.text()[n - k + i] == #[trigger] a.name[i]);
    assert(forall|i: int| 0 <= i < l ==> b.text()[n - l + i] == #[trigger] b.name[i]);
    assert(k == l) by {
        if k < l {
            assert(b.name[l - k - 1] == '/');
        }
        if l < k {
            assert(a.name[k - l - 1] == '/');
        }
    }
    assert(a.name =~= b.name);
    // What lies between is the namespace.
    if let (Some(x), Some(y)) = (a.namespace, b.namespace) {
        assert(forall|i: int| 0 <= i < x.len() ==> a.text()[7 + p + i] == #[trigger] x[i]);
        assert(forall|i: int| 0 <= i < y.len() ==> b.text()[7 + p + i] == #[trigger] y[i]);
        assert(x =~= y);
    }
}

} // verus!
