use vstd::prelude::*;

verus! {

/// A fenced code block in `language`.
pub fn md_codeblock(language: &str, code: &str) -> (r: String)
    ensures
        r@ == "``` "@ + language@ + "\n"@ + code@ + "\n"@ + "```"@ + "\n"@,
{
    let mut s = String::from_str("``` ");
    s.append(language);
    s.append("\n");
    s.append(code);
    s.append("\n");
    s.append("```");
    s.append("\n");
    s
}

/// `text` between two markers.
fn enclose(marker: &str, text: &str) -> (r: String)
    ensures
        r@ == marker@ + text@ + marker@,
{
    let mut s = String::from_str(marker);
    s.append(text);
    s.append(marker);
    s
}

/// `text` after a prefix.
fn prefixed(prefix: &str, text: &str) -> (r: String)
    ensures
        r@ == prefix@ + text@,
{
    let mut s = String::from_str(prefix);
    s.append(text);
    s
}

/// Bold text.
pub fn md_bold(text: &str) -> (r: String)
    ensures
        r@ == "**"@ + text@ + "**"@,
{
    enclose("**", text)
}

/// Italic text.
pub fn md_italic(text: &str) -> (r: String)
    ensures
        r@ == "_"@ + text@ + "_"@,
{
    enclose("_", text)
}

/// A first-level heading.
pub fn md_h1(text: &str) -> (r: String)
    ensures
        r@ == "# "@ + text@,
{
    prefixed("# ", text)
}

/// A second-level heading.
pub fn md_h2(text: &str) -> (r: String)
    ensures
        r@ == "## "@ + text@,
{
    prefixed("## ", text)
}

/// A third-level heading.
pub fn md_h3(text: &str) -> (r: String)
    ensures
        r@ == "### "@ + text@,
{
    prefixed("### ", text)
}

/// A fourth-level heading.
pub fn md_h4(text: &str) -> (r: String)
    ensures
        r@ == "#### "@ + text@,
{
    prefixed("#### ", text)
}

/// A fifth-level heading.
pub fn md_h5(text: &str) -> (r: String)
    ensures
        r@ == "##### "@ + text@,
{
    prefixed("##### ", text)
}

/// A sixth-level heading.
pub fn md_h6(text: &str) -> (r: String)
    ensures
        r@ == "###### "@ + text@,
{
    prefixed("###### ", text)
}

/// A paragraph break.
pub fn md_newline() -> (r: String)
    ensures
        r@ == "\n\n"@,
{
    String::from_str("\n\n")
}

} // verus!
