//! Code snippet generation for API requests in multiple languages.
use vstd::prelude::*;

use crate::layout::{holds_at, lemma_starts_with_pieces, starts_with_pieces};
use crate::text::{chars_of, concat_map, lemma_concat_map_step, push_char};

verus! {

broadcast use vstd::string::group_string_axioms;

/// Represents a prepared API request for code generation.
#[derive(Debug, Clone)]
pub struct CodegenRequest {
    pub method: String,
    pub url: String,
    pub headers: Vec<(String, String)>,
    pub body: Option<String>,
}

/// How a character is written inside a single-quoted shell word.
pub open spec fn shell_char(c: char) -> Seq<char> {
    if c == '\'' {
        "'\\''"@
    } else {
        seq![c]
    }
}

/// How a character is written inside a single-quoted Python string.
pub open spec fn python_char(c: char) -> Seq<char> {
    if c == '\\' {
        "\\\\"@
    } else if c == '\'' {
        "\\'"@
    } else {
        seq![c]
    }
}

/// How a character is written inside a double-quoted (C-style) string literal.
pub open spec fn quoted_char(c: char) -> Seq<char> {
    if c == '\\' {
        "\\\\"@
    } else if c == '"' {
        "\\\""@
    } else if c == '\n' {
        "\\n"@
    } else if c == '\r' {
        "\\r"@
    } else if c == '\t' {
        "\\t"@
    } else {
        seq![c]
    }
}

/// The escaping styles of the generated snippets.
pub enum EscapeStyle {
    Shell,
    Python,
    Quoted,
}

pub open spec fn style_char(style: EscapeStyle, c: char) -> Seq<char> {
    match style {
        EscapeStyle::Shell => shell_char(c),
        EscapeStyle::Python => python_char(c),
        EscapeStyle::Quoted => quoted_char(c),
    }
}

/// `s` with every character written in the given style.
pub open spec fn escape_in(style: EscapeStyle, s: Seq<char>) -> Seq<char>
    decreases s.len(),
{
    if s.len() == 0 {
        Seq::<char>::empty()
    } else {
        escape_in(style, s.drop_last()) + style_char(style, s.last())
    }
}

fn push_style_char(out: &mut String, style: &EscapeStyle, c: char)
    ensures
        final(out)@ == old(out)@ + style_char(*style, c),
{
    match style {
        EscapeStyle::Shell => {
            if c == '\'' {
                out.append("'\\''");
            } else {
                push_char(out, c);
            }
        },
        EscapeStyle::Python => {
            if c == '\\' {
                out.append("\\\\");
            } else if c == '\'' {
                out.append("\\'");
            } else {
                push_char(out, c);
            }
        },
        EscapeStyle::Quoted => {
            if c == '\\' {
                out.append("\\\\");
            } else if c == '"' {
                out.append("\\\"");
            } else if c == '\n' {
                out.append("\\n");
            } else if c == '\r' {
                out.append("\\r");
            } else if c == '\t' {
                out.append("\\t");
            } else {
                push_char(out, c);
            }
        },
    }
}

fn push_escaped_in(out: &mut String, style: &EscapeStyle, s: &str)
    ensures
        final(out)@ == old(out)@ + escape_in(*style, s@),
{
    let chars = chars_of(s);
    let ghost start = out@;
    let mut i: usize = 0;
    while i < chars.len()
        invariant
            chars@ == s@,
            i <= chars@.len(),
            out@ == start + escape_in(*style, chars@.take(i as int)),
        decreases chars@.len() - i,
    {
        push_style_char(out, style, chars[i]);
        i = i + 1;
        assert(chars@.take(i as int).drop_last() =~= chars@.take(i - 1));
    }
    assert(chars@.take(i as int) =~= chars@);
}

/// Escape a value for a single-quoted shell word (`'` becomes `'\''`).
pub fn escape_shell(s: &str) -> (r: String)
    ensures
        r@ == escape_in(EscapeStyle::Shell, s@),
{
    let mut r = String::new();
    push_escaped_in(&mut r, &EscapeStyle::Shell, s);
    r
}

/// Escape a value for a single-quoted Python string (backslashes and `'`).
pub fn escape_python_string(s: &str) -> (r: String)
    ensures
        r@ == escape_in(EscapeStyle::Python, s@),
{
    let mut r = String::new();
    push_escaped_in(&mut r, &EscapeStyle::Python, s);
    r
}

/// Escape a value for a double-quoted string literal (backslash, `"`, `\n`, `\r`, `\t`).
pub fn escape_quoted_string(s: &str) -> (r: String)
    ensures
        r@ == escape_in(EscapeStyle::Quoted, s@),
{
    let mut r = String::new();
    push_escaped_in(&mut r, &EscapeStyle::Quoted, s);
    r
}

/// A curl header option.
pub open spec fn curl_header(h: (String, String)) -> Seq<char> {
    " \\\n  -H '"@ + escape_in(EscapeStyle::Shell, h.0@) + ": "@ + escape_in(EscapeStyle::Shell, h.1@)
        + "'"@
}

/// The curl command for a request.
pub open spec fn curl_of(r: CodegenRequest) -> Seq<char> {
    "curl -X "@ + r.method@ + " '"@ + r.url@ + "'"@ + concat_map(r.headers@, |h| curl_header(h))
        + match r.body {
        Some(b) => " \\\n  -d '"@ + escape_in(EscapeStyle::Shell, b@) + "'"@,
        None => Seq::<char>::empty(),
    }
}

/// A Python header entry.
pub open spec fn python_header(h: (String, String)) -> Seq<char> {
    "    '"@ + h.0@ + "': '"@ + escape_in(EscapeStyle::Python, h.1@) + "',\n"@
}

/// The Python (requests) snippet for a request.
pub open spec fn python_of(r: CodegenRequest) -> Seq<char> {
    "import requests\n\n"@ + "url = '"@ + r.url@ + "'\n"@ + (if r.headers@.len() > 0 {
        "headers = {\n"@ + concat_map(r.headers@, |h| python_header(h)) + "}\n\n"@
    } else {
        "headers = {}\n\n"@
    }) + match r.body {
        Some(b) => "data = '"@ + escape_in(EscapeStyle::Python, b@) + "'\n\n"@
            + "response = requests.request('"@ + r.method@
            + "', url, headers=headers, data=data)\n"@,
        None => "response = requests.request('"@ + r.method@ + "', url, headers=headers)\n"@,
    } + "print(response.status_code)\n"@ + "print(response.text)"@
}

/// The part of a Python snippet after its `headers` dict.
pub open spec fn python_after_headers(r: CodegenRequest) -> Seq<char> {
    let send = match r.body {
        Some(b) => "data = '"@ + escape_in(EscapeStyle::Python, b@) + "'\n\n"@
            + "response = requests.request('"@ + r.method@
            + "', url, headers=headers, data=data)\n"@,
        None => "response = requests.request('"@ + r.method@ + "', url, headers=headers)\n"@,
    };
    send + "print(response.status_code)\n"@ + "print(response.text)"@
}

/// Law: the Python snippet starts with the import and the URL, then its `headers`
/// dict: one entry `'name': 'value'` per header of the request, in the request's
/// order, each value escaped for Python; the dict is written empty only when the
/// request has no headers.
pub proof fn law_python_sends_every_header(r: CodegenRequest)
    ensures
        r.headers@.len() > 0 ==> starts_with_pieces(
            python_of(r),
            "import requests\n\n"@ + "url = '"@ + r.url@ + "'\n"@ + "headers = {\n"@,
            r.headers@,
            |h: (String, String)| "    '"@ + h.0@ + "': '"@ + escape_in(EscapeStyle::Python, h.1@) + "',\n"@,
            "}\n\n"@,
        ),
        r.headers@.len() == 0 ==> holds_at(
            python_of(r),
            0,
            "import requests\n\n"@ + "url = '"@ + r.url@ + "'\n"@ + "headers = {}\n\n"@,
        ),
{
    let head = "import requests\n\n"@ + "url = '"@ + r.url@ + "'\n"@;
    let rest = python_after_headers(r);
    if r.headers@.len() > 0 {
        let f = |h: (String, String)| "    '"@ + h.0@ + "': '"@ + escape_in(EscapeStyle::Python, h.1@) + "',\n"@;
        assert(f =~= (|h: (String, String)| python_header(h)));
        lemma_starts_with_pieces(head + "headers = {\n"@, r.headers@, f, "}\n\n"@, rest);
        assert(python_of(r) =~= head + "headers = {\n"@ + concat_map(r.headers@, f) + "}\n\n"@ + rest);
    } else {
        let h = head + "headers = {}\n\n"@;
        assert(python_of(r) =~= h + rest);
        assert(python_of(r).subrange(0, h.len() as int) =~= h);
    }
}

/// A JavaScript header entry.
pub open spec fn js_header(h: (String, String)) -> Seq<char> {
    "    '"@ + h.0@ + "': '"@ + escape_in(EscapeStyle::Quoted, h.1@) + "',\n"@
}

/// The JavaScript (fetch) snippet for a request.
pub open spec fn javascript_of(r: CodegenRequest) -> Seq<char> {
    "const url = '"@ + r.url@ + "';\n\n"@ + "const options = {\n"@ + "  method: '"@ + r.method@
        + "',\n"@ + (if r.headers@.len() > 0 {
        "  headers: {\n"@ + concat_map(r.headers@, |h| js_header(h)) + "  },\n"@
    } else {
        Seq::<char>::empty()
    }) + match r.body {
        Some(b) => "  body: '"@ + escape_in(EscapeStyle::Quoted, b@) + "',\n"@,
        None => Seq::<char>::empty(),
    } + "};\n\n"@ + "fetch(url, options)\n"@ + "  .then(response => response.json())\n"@
        + "  .then(data => console.log(data))\n"@
        + "  .catch(error => console.error('Error:', error));"@
}

/// Law: the curl command is the method and the URL, then one `-H 'name: value'` option
/// per header of the request, in order, name and value escaped for the shell.
pub proof fn law_curl_sends_every_header(r: CodegenRequest)
    ensures
        starts_with_pieces(
            curl_of(r),
            "curl -X "@ + r.method@ + " '"@ + r.url@ + "'"@,
            r.headers@,
            |h: (String, String)| " \\\n  -H '"@ + escape_in(EscapeStyle::Shell, h.0@) + ": "@ + escape_in(
                EscapeStyle::Shell,
                h.1@,
            ) + "'"@,
            Seq::<char>::empty(),
        ),
{
    let head = "curl -X "@ + r.method@ + " '"@ + r.url@ + "'"@;
    let f = |h: (String, String)| " \\\n  -H '"@ + escape_in(EscapeStyle::Shell, h.0@) + ": "@ + escape_in(
        EscapeStyle::Shell,
        h.1@,
    ) + "'"@;
    let rest = match r.body {
        Some(b) => " \\\n  -d '"@ + escape_in(EscapeStyle::Shell, b@) + "'"@,
        None => Seq::<char>::empty(),
    };
    assert(f =~= (|h: (String, String)| curl_header(h)));
    lemma_starts_with_pieces(head, r.headers@, f, Seq::<char>::empty(), rest);
    assert(curl_of(r) =~= head + concat_map(r.headers@, f) + Seq::<char>::empty() + rest);
}

/// Law: the JavaScript snippet's options hold, after the method, a `headers` object
/// with one entry `'name': 'value'` per header of the request, in order, each value
/// escaped for a quoted string, where the request has headers.
pub proof fn law_javascript_sends_every_header(r: CodegenRequest)
    ensures
        r.headers@.len() > 0 ==> starts_with_pieces(
            javascript_of(r),
            "const url = '"@ + r.url@ + "';\n\n"@ + "const options = {\n"@ + "  method: '"@ + r.method@ + "',\n"@
                + "  headers: {\n"@,
            r.headers@,
            |h: (String, String)| "    '"@ + h.0@ + "': '"@ + escape_in(EscapeStyle::Quoted, h.1@) + "',\n"@,
            "  },\n"@,
        ),
{
    if r.headers@.len() > 0 {
        let head = "const url = '"@ + r.url@ + "';\n\n"@ + "const options = {\n"@ + "  method: '"@ + r.method@
            + "',\n"@ + "  headers: {\n"@;
        let f = |h: (String, String)| "    '"@ + h.0@ + "': '"@ + escape_in(EscapeStyle::Quoted, h.1@) + "',\n"@;
        let body = match r.body {
            Some(b) => "  body: '"@ + escape_in(EscapeStyle::Quoted, b@) + "',\n"@,
            None => Seq::<char>::empty(),
        };
        let rest = body + "};\n\n"@ + "fetch(url, options)\n"@ + "  .then(response => response.json())\n"@
            + "  .then(data => console.log(data))\n"@ + "  .catch(error => console.error('Error:', error));"@;
        assert(f =~= (|h: (String, String)| js_header(h)));
        lemma_starts_with_pieces(head, r.headers@, f, "  },\n"@, rest);
        assert(javascript_of(r) =~= head + concat_map(r.headers@, f) + "  },\n"@ + rest);
    }
}

pub const RUST_ATTR: &'static str = "#[tokio::";

pub const RUST_MAIN: &'static str = "main]\n";

pub const RUST_SIG: &'static str = "async fn main() -> Result<(), Box<dyn std::";

pub const RUST_SIG_END: &'static str = "error::Error>> {\n";

pub const RUST_STATUS: &'static str = "    println";

pub const RUST_STATUS_END: &'static str = "!(\"Status: {}\", status);\n";

pub const RUST_BODY: &'static str = "    println";

pub const RUST_BODY_END: &'static str = "!(\"Body: {}\", body);\n\n";

/// A Rust header line.
pub open spec fn rust_header(h: (String, String)) -> Seq<char> {
    "    request = request.header(\""@ + h.0@ + "\", \""@ + escape_in(EscapeStyle::Quoted, h.1@)
        + "\");\n"@
}

/// The Rust (reqwest) snippet for a request.
pub open spec fn rust_of(r: CodegenRequest) -> Seq<char> {
    RUST_ATTR@ + RUST_MAIN@ + RUST_SIG@ + RUST_SIG_END@
        + "    let client = reqwest::Client::new();\n\n"@ + "    let url = \""@ + r.url@
        + "\";\n\n"@ + "    let mut request = client.request(reqwest::Method::"@ + r.method@
        + ", url);\n"@ + concat_map(r.headers@, |h| rust_header(h)) + match r.body {
        Some(b) => "    request = request.body(\""@ + escape_in(EscapeStyle::Quoted, b@)
            + "\");\n"@,
        None => Seq::<char>::empty(),
    } + "\n    let response = request.send().await?;\n"@ + "    let status = response.status();\n"@
        + "    let body = response.text().await?;\n\n"@ + RUST_STATUS@ + RUST_STATUS_END@
        + RUST_BODY@ + RUST_BODY_END@ + "    Ok(())\n"@ + "}\n"@
}

/// Law: the Rust snippet builds the request with the method and the URL, then adds one
/// `request.header("name", "value")` per header of the request, in order, each value
/// escaped for a quoted string.
pub proof fn law_rust_sends_every_header(r: CodegenRequest)
    ensures
        starts_with_pieces(
            rust_of(r),
            RUST_ATTR@ + RUST_MAIN@ + RUST_SIG@ + RUST_SIG_END@ + "    let client = reqwest::Client::new();\n\n"@
                + "    let url = \""@ + r.url@ + "\";\n\n"@ + "    let mut request = client.request(reqwest::Method::"@
                + r.method@ + ", url);\n"@,
            r.headers@,
            |h: (String, String)| "    request = request.header(\""@ + h.0@ + "\", \""@ + escape_in(
                EscapeStyle::Quoted,
                h.1@,
            ) + "\");\n"@,
            Seq::<char>::empty(),
        ),
{
    let head = RUST_ATTR@ + RUST_MAIN@ + RUST_SIG@ + RUST_SIG_END@ + "    let client = reqwest::Client::new();\n\n"@
        + "    let url = \""@ + r.url@ + "\";\n\n"@ + "    let mut request = client.request(reqwest::Method::"@
        + r.method@ + ", url);\n"@;
    let f = |h: (String, String)| "    request = request.header(\""@ + h.0@ + "\", \""@ + escape_in(
        EscapeStyle::Quoted,
        h.1@,
    ) + "\");\n"@;
    let body = match r.body {
        Some(b) => "    request = request.body(\""@ + escape_in(EscapeStyle::Quoted, b@) + "\");\n"@,
        None => Seq::<char>::empty(),
    };
    let rest = body + "\n    let response = request.send().await?;\n"@ + "    let status = response.status();\n"@
        + "    let body = response.text().await?;\n\n"@ + RUST_STATUS@ + RUST_STATUS_END@ + RUST_BODY@
        + RUST_BODY_END@ + "    Ok(())\n"@ + "}\n"@;
    assert(f =~= (|h: (String, String)| rust_header(h)));
    lemma_starts_with_pieces(head, r.headers@, f, Seq::<char>::empty(), rest);
    assert(rust_of(r) =~= head + concat_map(r.headers@, f) + Seq::<char>::empty() + rest);
}

impl CodegenRequest {
    /// Generate a curl command for this request.
    pub fn to_curl(&self) -> (r: String)
        ensures
            r@ == curl_of(*self),
    {
        let mut cmd = String::from_str("curl -X ");
        cmd.append(self.method.as_str());
        cmd.append(" '");
        cmd.append(self.url.as_str());
        cmd.append("'");
        let ghost start = cmd@;
        let mut i: usize = 0;
        while i < self.headers.len()
            invariant
                i <= self.headers@.len(),
                cmd@ == start + concat_map(self.headers@.take(i as int), |h| curl_header(h)),
            decreases self.headers@.len() - i,
        {
            let (name, value) = &self.headers[i];
            cmd.append(" \\\n  -H '");
            push_escaped_in(&mut cmd, &EscapeStyle::Shell, name.as_str());
            cmd.append(": ");
            push_escaped_in(&mut cmd, &EscapeStyle::Shell, value.as_str());
            cmd.append("'");
            proof {
                lemma_concat_map_step(self.headers@, |h| curl_header(h), i as int);
            }
            i = i + 1;
        }
        assert(self.headers@.take(i as int) =~= self.headers@);
        if let Some(body) = &self.body {
            cmd.append(" \\\n  -d '");
            push_escaped_in(&mut cmd, &EscapeStyle::Shell, body.as_str());
            cmd.append("'");
        }
        cmd
    }

    /// Generate a Python (requests library) snippet for this request.
    pub fn to_python(&self) -> (r: String)
        ensures
            r@ == python_of(*self),
    {
        let mut code = String::from_str("import requests\n\n");
        code.append("url = '");
        code.append(self.url.as_str());
        code.append("'\n");
        if self.headers.len() > 0 {
            code.append("headers = {\n");
            let ghost start = code@;
            let mut i: usize = 0;
            while i < self.headers.len()
                invariant
                    i <= self.headers@.len(),
                    code@ == start + concat_map(self.headers@.take(i as int), |h| python_header(h)),
                decreases self.headers@.len() - i,
            {
                let (name, value) = &self.headers[i];
                code.append("    '");
                code.append(name.as_str());
                code.append("': '");
                push_escaped_in(&mut code, &EscapeStyle::Python, value.as_str());
                code.append("',\n");
                proof {
                    lemma_concat_map_step(self.headers@, |h| python_header(h), i as int);
                }
                i = i + 1;
            }
            assert(self.headers@.take(i as int) =~= self.headers@);
            code.append("}\n\n");
        } else {
            code.append("headers = {}\n\n");
        }
        if let Some(body) = &self.body {
            code.append("data = '");
            push_escaped_in(&mut code, &EscapeStyle::Python, body.as_str());
            code.append("'\n\n");
            code.append("response = requests.request('");
            code.append(self.method.as_str());
            code.append("', url, headers=headers, data=data)\n");
        } else {
            code.append("response = requests.request('");
            code.append(self.method.as_str());
            code.append("', url, headers=headers)\n");
        }
        code.append("print(response.status_code)\n");
        code.append("print(response.text)");
        code
    }

    /// Generate a JavaScript (fetch API) snippet for this request.
    pub fn to_javascript(&self) -> (r: String)
        ensures
            r@ == javascript_of(*self),
    {
        let mut code = String::from_str("const url = '");
        code.append(self.url.as_str());
        code.append("';\n\n");
        code.append("const options = {\n");
        code.append("  method: '");
        code.append(self.method.as_str());
        code.append("',\n");
        if self.headers.len() > 0 {
            code.append("  headers: {\n");
            let ghost start = code@;
            let mut i: usize = 0;
            while i < self.headers.len()
                invariant
                    i <= self.headers@.len(),
                    code@ == start + concat_map(self.headers@.take(i as int), |h| js_header(h)),
                decreases self.headers@.len() - i,
            {
                let (name, value) = &self.headers[i];
                code.append("    '");
                code.append(name.as_str());
                code.append("': '");
                push_escaped_in(&mut code, &EscapeStyle::Quoted, value.as_str());
                code.append("',\n");
                proof {
                    lemma_concat_map_step(self.headers@, |h| js_header(h), i as int);
                }
                i = i + 1;
            }
            assert(self.headers@.take(i as int) =~= self.headers@);
            code.append("  },\n");
        }
        if let Some(body) = &self.body {
            code.append("  body: '");
            push_escaped_in(&mut code, &EscapeStyle::Quoted, body.as_str());
            code.append("',\n");
        }
        code.append("};\n\n");
        code.append("fetch(url, options)\n");
        code.append("  .then(response => response.json())\n");
        code.append("  .then(data => console.log(data))\n");
        code.append("  .catch(error => console.error('Error:', error));");
        code
    }

    /// Generate a Rust (reqwest) snippet for this request.
    pub fn to_rust(&self) -> (r: String)
        ensures
            r@ == rust_of(*self),
    {
        let mut code = String::from_str(RUST_ATTR);
        code.append(RUST_MAIN);
        code.append(RUST_SIG);
        code.append(RUST_SIG_END);
        code.append("    let client = reqwest::Client::new();\n\n");
        code.append("    let url = \"");
        code.append(self.url.as_str());
        code.append("\";\n\n");
        code.append("    let mut request = client.request(reqwest::Method::");
        code.append(self.method.as_str());
        code.append(", url);\n");
        let ghost start = code@;
        let mut i: usize = 0;
        while i < self.headers.len()
            invariant
                i <= self.headers@.len(),
                code@ == start + concat_map(self.headers@.take(i as int), |h| rust_header(h)),
            decreases self.headers@.len() - i,
        {
            let (name, value) = &self.headers[i];
            code.append("    request = request.header(\"");
            code.append(name.as_str());
            code.append("\", \"");
            push_escaped_in(&mut code, &EscapeStyle::Quoted, value.as_str());
            code.append("\");\n");
            proof {
                lemma_concat_map_step(self.headers@, |h| rust_header(h), i as int);
            }
            i = i + 1;
        }
        assert(self.headers@.take(i as int) =~= self.headers@);
        if let Some(body) = &self.body {
            code.append("    request = request.body(\"");
            push_escaped_in(&mut code, &EscapeStyle::Quoted, body.as_str());
            code.append("\");\n");
        }
        code.append("\n    let response = request.send().await?;\n");
        code.append("    let status = response.status();\n");
        code.append("    let body = response.text().await?;\n\n");
        code.append(RUST_STATUS);
        code.append(RUST_STATUS_END);
        code.append(RUST_BODY);
        code.append(RUST_BODY_END);
        code.append("    Ok(())\n");
        code.append("}\n");
        code
    }
}

} // verus!
