//! Putting the hooks in place.
use crate::task::{
    LINEAR_COMMENT, LINEAR_DESCRIPTION, LINEAR_ID, LINEAR_IDENTIFIER, LINEAR_URL,
};
use crate::text::{contains_text, has_part, texts};
use vstd::prelude::*;

verus! {

/// The mode of a hook script: everybody may run it, its owner may write it.
pub const HOOK_MODE: u32 = 0o755;

/// A script to put into the hooks directory.
#[derive(Debug, PartialEq, Eq)]
pub struct HookScript {
    pub name: String,
    pub script: String,
}

/// The script that runs a subcommand of the program at `binary`.
pub open spec fn script_text(binary: Seq<char>, subcommand: Seq<char>) -> Seq<char> {
    "#!/bin/sh\nexec \""@ + binary + "\" "@ + subcommand + "\n"@
}

/// One script.
fn hook_script(name: &str, binary: &str, subcommand: &str) -> (r: HookScript)
    ensures
        r.name@ == name@,
        r.script@ == script_text(binary@, subcommand@),
{
    HookScript {
        name: name.to_owned(),
        script: "#!/bin/sh\nexec \"".to_owned().concat(binary).concat("\" ").concat(
            subcommand,
        ).concat("\n"),
    }
}

/// The scripts of the two hooks, for the program at `binary`.
pub fn hook_scripts(binary: &str) -> (r: Vec<HookScript>)
    ensures
        r@.len() == 2,
        r@[0].name@ == "on-add-linear"@,
        r@[0].script@ == script_text(binary@, "on-add"@),
        r@[1].name@ == "on-modify-linear"@,
        r@[1].script@ == script_text(binary@, "on-modify"@),
{
    let mut scripts: Vec<HookScript> = Vec::new();
    scripts.push(hook_script("on-add-linear", binary, "on-add"));
    scripts.push(hook_script("on-modify-linear", binary, "on-modify"));
    scripts
}

/// The lines that tell taskwarrior of the members that the hooks use.
pub open spec fn uda_texts() -> Seq<Seq<char>> {
    seq![
        "uda.linearid.type=string"@,
        "uda.linearid.label=Linear Issue ID"@,
        "uda.linearurl.type=string"@,
        "uda.linearurl.label=Linear Issue URL"@,
        "uda.linearidentifier.type=string"@,
        "uda.linearidentifier.label=Linear Identifier"@,
        "uda.lineardescription.type=string"@,
        "uda.lineardescription.label=Linear Description"@,
        "uda.linearcomment.type=string"@,
        "uda.linearcomment.label=Linear Comment"@,
    ]
}

/// The lines that tell taskwarrior of the members that the hooks use.
pub fn uda_lines() -> (r: Vec<String>)
    ensures
        texts(r@) == uda_texts(),
{
    let mut lines: Vec<String> = Vec::new();
    lines.push("uda.linearid.type=string".to_owned());
    lines.push("uda.linearid.label=Linear Issue ID".to_owned());
    lines.push("uda.linearurl.type=string".to_owned());
    lines.push("uda.linearurl.label=Linear Issue URL".to_owned());
    lines.push("uda.linearidentifier.type=string".to_owned());
    lines.push("uda.linearidentifier.label=Linear Identifier".to_owned());
    lines.push("uda.lineardescription.type=string".to_owned());
    lines.push("uda.lineardescription.label=Linear Description".to_owned());
    lines.push("uda.linearcomment.type=string".to_owned());
    lines.push("uda.linearcomment.label=Linear Comment".to_owned());
    assert(texts(lines@) =~= uda_texts());
    lines
}

/// The lines that do not stand anywhere in `existing`, in order.
pub open spec fn missing_texts(existing: Seq<char>, lines: Seq<Seq<char>>) -> Seq<Seq<char>>
    decreases lines.len(),
{
    if lines.len() == 0 {
        Seq::empty()
    } else {
        let rest = missing_texts(existing, lines.drop_last());
        if contains_text(existing, lines.last()) {
            rest
        } else {
            rest.push(lines.last())
        }
    }
}

/// The lines one after the other, each with a line break.
pub open spec fn lines_text(lines: Seq<Seq<char>>) -> Seq<char>
    decreases lines.len(),
{
    if lines.len() == 0 {
        Seq::empty()
    } else {
        lines_text(lines.drop_last()) + lines.last() + "\n"@
    }
}

/// What is to be added to a settings file that holds `existing`.
pub open spec fn addition_text(existing: Seq<char>) -> Seq<char> {
    let missing = missing_texts(existing, uda_texts());
    if missing.len() == 0 {
        Seq::empty()
    } else {
        "\n# linear-sync UDAs\n"@ + lines_text(missing)
    }
}

/// The lines of [`uda_lines`] that do not stand anywhere in `existing`, in order.
pub fn missing_udas(existing: &str) -> (r: Vec<String>)
    ensures
        texts(r@) == missing_texts(existing@, uda_texts()),
{
    let lines = uda_lines();
    let ghost all = lines@;
    let ghost all_texts = uda_texts();
    let mut missing: Vec<String> = Vec::new();
    assert(all_texts.take(0) =~= Seq::empty());
    assert(texts(missing@) =~= missing_texts(existing@, all_texts.take(0)));
    for line in it: lines
        invariant
            it.seq() == all,
            texts(all) == all_texts,
            texts(missing@) == missing_texts(existing@, all_texts.take(it.index() as int)),
    {
        assert(all_texts.take(it.index() + 1).drop_last() =~= all_texts.take(it.index() as int));
        assert(all_texts.take(it.index() + 1).last() == line@);
        let ghost before = missing@;
        if !has_part(existing, line.as_str()) {
            missing.push(line);
            assert(texts(missing@) =~= texts(before).push(line@));
        }
    }
    assert(all_texts.take(all.len() as int) =~= all_texts);
    missing
}

/// What is to be added to a settings file that holds `existing`, if anything is.
pub fn taskrc_addition(existing: &str) -> (r: Option<String>)
    ensures
        match r {
            Some(text) => missing_texts(existing@, uda_texts()).len() > 0 && text@
                == addition_text(existing@),
            None => missing_texts(existing@, uda_texts()).len() == 0,
        },
{
    let missing = missing_udas(existing);
    let ghost all_texts = texts(missing@);
    if missing.len() == 0 {
        return None;
    }
    let mut text = "\n# linear-sync UDAs\n".to_owned();
    let ghost head = text@;
    let mut i: usize = 0;
    assert(all_texts.take(0) =~= Seq::empty());
    assert(text@ =~= head + lines_text(all_texts.take(0)));
    while i < missing.len()
        invariant
            i <= missing@.len(),
            all_texts == texts(missing@),
            text@ == head + lines_text(all_texts.take(i as int)),
        decreases missing@.len() - i,
    {
        assert(all_texts.take(i + 1).drop_last() =~= all_texts.take(i as int));
        assert(all_texts.take(i + 1).last() == missing@[i as int]@);
        text.append(missing[i].as_str());
        text.append("\n");
        assert(text@ =~= head + lines_text(all_texts.take(i + 1)));
        i = i + 1;
    }
    assert(all_texts.take(all_texts.len() as int) =~= all_texts);
    Some(text)
}

/// What the user is told of a script at `path`.
pub fn installed_notice(path: &str) -> (r: String)
    ensures
        r@ == "Installed: "@ + path@,
{
    "Installed: ".to_owned().concat(path)
}

/// What the user is told of lines that were added to the file at `path`.
pub fn added_notice(path: &str) -> (r: String)
    ensures
        r@ == "Added UDA definitions to "@ + path@,
{
    "Added UDA definitions to ".to_owned().concat(path)
}

/// What the user is told when the settings file at `path` cannot be opened.
pub fn cannot_open_message(path: &str) -> (r: String)
    ensures
        r@ == "Cannot open "@ + path@,
{
    "Cannot open ".to_owned().concat(path)
}

/// What the user is told in the end.
pub const DONE_NOTICE: &'static str =
    "\nDone! Tasks created from now on will be synced to Linear.";

// ---- laws ----

/// Once the missing lines have been added, none is missing: to install again adds nothing.
pub proof fn law_installing_twice_adds_nothing(existing: Seq<char>)
    ensures
        missing_texts(existing + addition_text(existing), uda_texts()) == Seq::<Seq<char>>::empty(),
        addition_text(existing + addition_text(existing)) == Seq::<char>::empty(),
{
    let lines = uda_texts();
    let missing = missing_texts(existing, lines);
    let after = existing + addition_text(existing);
    assert forall|i: int| 0 <= i < lines.len() implies contains_text(after, #[trigger] lines[i]) by {
        if contains_text(existing, lines[i]) {
            lemma_contains_left(existing, addition_text(existing), lines[i]);
        } else {
            lemma_missing_line(existing, lines, i);
            let k = choose|k: int| 0 <= k < missing.len() && missing[k] == lines[i];
            lemma_line_stands(missing, k);
            lemma_contains_right("\n# linear-sync UDAs\n"@, lines_text(missing), lines[i]);
            lemma_contains_right(existing, addition_text(existing), lines[i]);
        }
    }
    lemma_none_missing(after, lines);
}

/// Only lines that are missing are added, each once.
pub proof fn law_only_missing_lines_are_added(existing: Seq<char>, lines: Seq<Seq<char>>)
    ensures
        missing_texts(existing, lines) == lines.filter(
            |line: Seq<char>| !contains_text(existing, line),
        ),
    decreases lines.len(),
{
    reveal(Seq::filter);
    if lines.len() > 0 {
        law_only_missing_lines_are_added(existing, lines.drop_last());
    }
}

proof fn lemma_contains_left(left: Seq<char>, right: Seq<char>, part: Seq<char>)
    requires
        contains_text(left, part),
    ensures
        contains_text(left + right, part),
{
    let i = choose|i: int|
        0 <= i && i + part.len() <= left.len() && #[trigger] left.subrange(i, i + part.len())
            == part;
    assert((left + right).subrange(i, i + part.len()) =~= left.subrange(i, i + part.len()));
}

proof fn lemma_contains_right(left: Seq<char>, right: Seq<char>, part: Seq<char>)
    requires
        contains_text(right, part),
    ensures
        contains_text(left + right, part),
{
    let i = choose|i: int|
        0 <= i && i + part.len() <= right.len() && #[trigger] right.subrange(i, i + part.len())
            == part;
    let j = left.len() + i;
    assert((left + right).subrange(j, j + part.len()) =~= right.subrange(i, i + part.len()));
}

proof fn lemma_missing_line(existing: Seq<char>, lines: Seq<Seq<char>>, i: int)
    requires
        0 <= i < lines.len(),
        !contains_text(existing, lines[i]),
    ensures
        missing_texts(existing, lines).contains(lines[i]),
    decreases lines.len(),
{
    let rest = missing_texts(existing, lines.drop_last());
    let missing = missing_texts(existing, lines);
    if i == lines.len() - 1 {
        assert(missing.last() == lines[i]);
    } else {
        lemma_missing_line(existing, lines.drop_last(), i);
        let k = choose|k: int| 0 <= k < rest.len() && rest[k] == lines[i];
        assert(missing[k] == lines[i]);
    }
}

proof fn lemma_line_stands(lines: Seq<Seq<char>>, k: int)
    requires
        0 <= k < lines.len(),
    ensures
        contains_text(lines_text(lines), lines[k]),
    decreases lines.len(),
{
    let head = lines_text(lines.drop_last());
    if k == lines.len() - 1 {
        let start = head.len() as int;
        let end = start + lines[k].len();
        assert(lines_text(lines).subrange(start, end) =~= lines[k]);
    } else {
        lemma_line_stands(lines.drop_last(), k);
        lemma_contains_left(head, lines.last(), lines[k]);
        lemma_contains_left(head + lines.last(), "\n"@, lines[k]);
    }
}

proof fn lemma_none_missing(existing: Seq<char>, lines: Seq<Seq<char>>)
    requires
        forall|i: int| 0 <= i < lines.len() ==> contains_text(existing, #[trigger] lines[i]),
    ensures
        missing_texts(existing, lines) == Seq::<Seq<char>>::empty(),
    decreases lines.len(),
{
    if lines.len() > 0 {
        assert(lines.last() == lines[lines.len() - 1]);
        lemma_none_missing(existing, lines.drop_last());
    }
}

/// Whether `line` stands in `text` at `start` as a whole line: a line break, or the start of the
/// text, right before it, and a line break right behind it.
pub open spec fn is_line_at(text: Seq<char>, line: Seq<char>, start: int) -> bool {
    &&& 0 <= start
    &&& start + line.len() < text.len()
    &&& text.subrange(start, start + line.len()) == line
    &&& text[start + line.len()] == '\n'
    &&& start == 0 || text[start - 1] == '\n'
}

/// Every definition that is missing is added as a line of its own, whatever the file holds.
pub proof fn law_missing_definitions_become_lines(existing: &str, r: Option<String>, i: int)
    requires
        call_ensures(taskrc_addition, (existing,), r),
        0 <= i < uda_texts().len(),
        !contains_text(existing@, uda_texts()[i]),
    ensures
        r matches Some(text) && exists|start: int| is_line_at(text@, uda_texts()[i], start),
{
    let line = uda_texts()[i];
    let missing = missing_texts(existing@, uda_texts());
    lemma_missing_line(existing@, uda_texts(), i);
    let k = choose|k: int| 0 <= k < missing.len() && missing[k] == line;
    lemma_line_is_whole(missing, k);
    let body = lines_text(missing);
    let start = choose|start: int| is_line_at(body, line, start);
    let head = "\n# linear-sync UDAs\n"@;
    reveal_strlit("\n# linear-sync UDAs\n");
    let text = (r->0)@;
    let from = head.len() + start;
    assert(text.subrange(from, from + line.len()) =~= body.subrange(start, start + line.len()));
    assert(is_line_at(text, line, from));
}

proof fn lemma_line_is_whole(lines: Seq<Seq<char>>, k: int)
    requires
        0 <= k < lines.len(),
    ensures
        exists|start: int| is_line_at(lines_text(lines), lines[k], start),
    decreases lines.len(),
{
    reveal_strlit("\n");
    let head = lines_text(lines.drop_last());
    let text = lines_text(lines);
    if k == lines.len() - 1 {
        let start = head.len() as int;
        lemma_lines_end_with_a_break(lines.drop_last());
        assert(text.subrange(start, start + lines[k].len()) =~= lines[k]);
        assert(is_line_at(text, lines[k], start));
    } else {
        lemma_line_is_whole(lines.drop_last(), k);
        let start = choose|start: int| is_line_at(head, lines[k], start);
        assert(text.subrange(start, start + lines[k].len()) =~= head.subrange(
            start,
            start + lines[k].len(),
        ));
        assert(is_line_at(text, lines[k], start));
    }
}

proof fn lemma_lines_end_with_a_break(lines: Seq<Seq<char>>)
    ensures
        lines_text(lines).len() > 0 ==> lines_text(lines).last() == '\n',
{
    reveal_strlit("\n");
}

/// What is added is a heading and then the lines that are missing, in order and each with its
/// line break, and nothing else.
pub proof fn law_addition_is_the_missing_lines(existing: &str, r: Option<String>)
    requires
        call_ensures(taskrc_addition, (existing,), r),
    ensures
        ({
            let missing = uda_texts().filter(
                |line: Seq<char>| !contains_text(existing@, line),
            );
            &&& r is None <==> missing.len() == 0
            &&& r matches Some(text) ==> text@ == "\n# linear-sync UDAs\n"@ + missing.map_values(
                |line: Seq<char>| line + "\n"@,
            ).flatten()
        }),
{
    law_only_missing_lines_are_added(existing@, uda_texts());
    let missing = missing_texts(existing@, uda_texts());
    lemma_lines_are_joined(missing);
}

proof fn lemma_lines_are_joined(lines: Seq<Seq<char>>)
    ensures
        lines_text(lines) == lines.map_values(|line: Seq<char>| line + "\n"@).flatten(),
    decreases lines.len(),
{
    let broken = lines.map_values(|line: Seq<char>| line + "\n"@);
    broken.lemma_flatten_and_flatten_alt_are_equivalent();
    if lines.len() > 0 {
        let rest = lines.drop_last();
        lemma_lines_are_joined(rest);
        let shorter = rest.map_values(|line: Seq<char>| line + "\n"@);
        shorter.lemma_flatten_and_flatten_alt_are_equivalent();
        assert(broken.drop_last() =~= shorter);
        assert(broken.last() == lines.last() + "\n"@);
        assert(lines_text(lines) =~= lines_text(rest) + (lines.last() + "\n"@));
    } else {
        assert(broken =~= Seq::empty());
    }
}

/// Each member that the program uses is defined as text and has a label.
pub proof fn law_used_members_are_defined()
    ensures
        uda_texts().contains("uda."@ + LINEAR_ID@ + ".type=string"@),
        uda_texts().contains("uda."@ + LINEAR_URL@ + ".type=string"@),
        uda_texts().contains("uda."@ + LINEAR_IDENTIFIER@ + ".type=string"@),
        uda_texts().contains("uda."@ + LINEAR_DESCRIPTION@ + ".type=string"@),
        uda_texts().contains("uda."@ + LINEAR_COMMENT@ + ".type=string"@),
        uda_texts().contains("uda."@ + LINEAR_ID@ + ".label=Linear Issue ID"@),
        uda_texts().contains("uda."@ + LINEAR_URL@ + ".label=Linear Issue URL"@),
        uda_texts().contains("uda."@ + LINEAR_IDENTIFIER@ + ".label=Linear Identifier"@),
        uda_texts().contains("uda."@ + LINEAR_DESCRIPTION@ + ".label=Linear Description"@),
        uda_texts().contains("uda."@ + LINEAR_COMMENT@ + ".label=Linear Comment"@),
        uda_texts().len() == 10,
{
    reveal_strlit("uda.");
    reveal_strlit(".type=string");
    reveal_strlit("linearid");
    reveal_strlit("uda.linearid.type=string");
    reveal_strlit(".label=Linear Issue ID");
    reveal_strlit("uda.linearid.label=Linear Issue ID");
    assert(uda_texts()[0] =~= "uda."@ + LINEAR_ID@ + ".type=string"@);
    assert(uda_texts()[1] =~= "uda."@ + LINEAR_ID@ + ".label=Linear Issue ID"@);
    reveal_strlit("linearurl");
    reveal_strlit("uda.linearurl.type=string");
    reveal_strlit(".label=Linear Issue URL");
    reveal_strlit("uda.linearurl.label=Linear Issue URL");
    assert(uda_texts()[2] =~= "uda."@ + LINEAR_URL@ + ".type=string"@);
    assert(uda_texts()[3] =~= "uda."@ + LINEAR_URL@ + ".label=Linear Issue URL"@);
    reveal_strlit("linearidentifier");
    reveal_strlit("uda.linearidentifier.type=string");
    reveal_strlit(".label=Linear Identifier");
    reveal_strlit("uda.linearidentifier.label=Linear Identifier");
    assert(uda_texts()[4] =~= "uda."@ + LINEAR_IDENTIFIER@ + ".type=string"@);
    assert(uda_texts()[5] =~= "uda."@ + LINEAR_IDENTIFIER@ + ".label=Linear Identifier"@);
    reveal_strlit("lineardescription");
    reveal_strlit("uda.lineardescription.type=string");
    reveal_strlit(".label=Linear Description");
    reveal_strlit("uda.lineardescription.label=Linear Description");
    assert(uda_texts()[6] =~= "uda."@ + LINEAR_DESCRIPTION@ + ".type=string"@);
    assert(uda_texts()[7] =~= "uda."@ + LINEAR_DESCRIPTION@ + ".label=Linear Description"@);
    reveal_strlit("linearcomment");
    reveal_strlit("uda.linearcomment.type=string");
    reveal_strlit(".label=Linear Comment");
    reveal_strlit("uda.linearcomment.label=Linear Comment");
    assert(uda_texts()[8] =~= "uda."@ + LINEAR_COMMENT@ + ".type=string"@);
    assert(uda_texts()[9] =~= "uda."@ + LINEAR_COMMENT@ + ".label=Linear Comment"@);
}

/// Once what is missing has been added, to install again adds nothing.
pub proof fn law_second_addition_is_none(
    existing: &str,
    first: Option<String>,
    after: &str,
    second: Option<String>,
)
    requires
        call_ensures(taskrc_addition, (existing,), first),
        call_ensures(taskrc_addition, (after,), second),
        after@ == (match first {
            Some(text) => existing@ + text@,
            None => existing@,
        }),
    ensures
        second is None,
{
    law_installing_twice_adds_nothing(existing@);
    if first is None {
        assert(existing@ + addition_text(existing@) =~= existing@);
    }
}

/// The lines that are missing are those that the file does not hold, in order.
pub proof fn law_missing_lines_are_found(existing: &str, missing: Vec<String>, lines: Vec<String>)
    requires
        call_ensures(missing_udas, (existing,), missing),
        call_ensures(uda_lines, (), lines),
    ensures
        texts(missing@) == texts(lines@).filter(
            |line: Seq<char>| !contains_text(existing@, line),
        ),
        lines@.len() == 10,
        forall|i: int| 0 <= i < lines@.len() ==> (#[trigger] lines@[i])@ == uda_texts()[i],
        missing@.len() == texts(missing@).len(),
        forall|i: int| 0 <= i < missing@.len() ==> texts(missing@)[i] == (#[trigger] missing@[i])@,
        forall|i: int| 0 <= i < lines@.len() ==> texts(lines@)[i] == (#[trigger] lines@[i])@,
{
    law_only_missing_lines_are_added(existing@, uda_texts());
    assert(texts(lines@).len() == lines@.len());
    assert forall|i: int| 0 <= i < lines@.len() implies (#[trigger] lines@[i])@
        == uda_texts()[i] by {
        assert(texts(lines@)[i] == uda_texts()[i]);
    }
}

/// There are two scripts, one for each hook, and each hands over to the program, in quotes, with
/// the command of its hook.
pub proof fn law_scripts_run_the_program(binary: &str, scripts: Vec<HookScript>)
    requires
        call_ensures(hook_scripts, (binary,), scripts),
    ensures
        scripts@.len() == 2,
        scripts@[0].name@ == "on-add-linear"@,
        scripts@[0].script@ == "#!/bin/sh\nexec \""@ + binary@ + "\" "@ + "on-add"@ + "\n"@,
        scripts@[1].name@ == "on-modify-linear"@,
        scripts@[1].script@ == "#!/bin/sh\nexec \""@ + binary@ + "\" "@ + "on-modify"@ + "\n"@,
{
}

/// The owner of a script may read, write and run it, and everybody else may read and run it.
pub proof fn law_scripts_can_be_run()
    ensures
        HOOK_MODE == 7 * 64 + 5 * 8 + 5,
{
}

/// The user is told where something was written, or could not be.
pub proof fn law_places_are_told(path: &str, installed: String, added: String, failed: String)
    requires
        call_ensures(installed_notice, (path,), installed),
        call_ensures(added_notice, (path,), added),
        call_ensures(cannot_open_message, (path,), failed),
    ensures
        installed@ == "Installed: "@ + path@,
        added@ == "Added UDA definitions to "@ + path@,
        failed@ == "Cannot open "@ + path@,
{
}

/// The user is told in the end that tasks will be synced.
pub proof fn law_end_is_told()
    ensures
        DONE_NOTICE@ == "\nDone! Tasks created from now on will be synced to Linear."@,
{
}

} // verus!
