//! The source file that registers the plugins of a project, made from the list of the plugins.
use crate::chars::{chars_of, find_char, first_place, lemma_first_place, lemma_is_first_place};
use crate::plugins::{list_of, plugin_line, PluginTargetView};
use crate::utf8_text::{lemma_encode_concat, lemma_split_behind_line_feed, text_from_utf8};
use vstd::prelude::*;
use vstd::string::*;
use vstd::utf8::{
    decode_utf8, encode_utf8, encode_utf8_decode_utf8, encode_utf8_valid_utf8, valid_utf8,
};

verus! {

/// A line without the carriage return at its end.
pub open spec fn chomped(line: Seq<char>) -> Seq<char> {
    if line.len() > 0 && line.last() == '\r' {
        line.drop_last()
    } else {
        line
    }
}

/// The lines of a text. A line ends with a line feed, before which there may be a carriage
/// return. The last one may also end with the text.
pub open spec fn lines_of(text: Seq<char>) -> Seq<Seq<char>>
    decreases text.len(),
{
    if text.len() == 0 {
        Seq::empty()
    } else {
        let end = first_place(text, '\n');
        if end < text.len() {
            seq![chomped(text.take(end as int))] + lines_of(text.skip(end as int + 1))
        } else {
            seq![text]
        }
    }
}

/// How many bytes the first line of a file has, with its line feed.
pub open spec fn first_line_len(bytes: Seq<u8>) -> nat
    decreases bytes.len(),
{
    if bytes.len() == 0 {
        0
    } else if bytes[0] == 0x0a {
        1
    } else {
        1 + first_line_len(bytes.skip(1))
    }
}

/// The lines of a file before the first that is not UTF-8, with their line feeds.
pub open spec fn readable_bytes(bytes: Seq<u8>) -> Seq<u8>
    decreases bytes.len(),
{
    let n = first_line_len(bytes) as int;
    if 0 < n <= bytes.len() && valid_utf8(bytes.take(n)) {
        bytes.take(n) + readable_bytes(bytes.skip(n))
    } else {
        Seq::empty()
    }
}

/// The text of the lines of a file before the first that is not UTF-8.
pub open spec fn readable_text(bytes: Seq<u8>) -> Seq<char> {
    decode_utf8(readable_bytes(bytes))
}

/// A line is as long as what comes up to the first line feed.
proof fn lemma_first_line_len(bytes: Seq<u8>)
    ensures
        first_line_len(bytes) <= bytes.len(),
        bytes.len() > 0 ==> first_line_len(bytes) > 0,
        forall|i: int| 0 <= i < first_line_len(bytes) - 1 ==> #[trigger] bytes[i] != 0x0a,
        0 < first_line_len(bytes) < bytes.len() ==> bytes[first_line_len(bytes) - 1] == 0x0a,
    decreases bytes.len(),
{
    if bytes.len() > 0 && bytes[0] != 0x0a {
        let rest = bytes.skip(1);
        lemma_first_line_len(rest);
        assert forall|i: int| 0 <= i < first_line_len(bytes) - 1 implies #[trigger] bytes[i]
            != 0x0a by {
            if i > 0 {
                assert(rest[i - 1] == bytes[i]);
            }
        }
        if first_line_len(bytes) < bytes.len() {
            assert(rest[first_line_len(rest) - 1] == bytes[first_line_len(bytes) - 1]);
        }
    }
}

/// What ends at the first line feed, or has none and ends with the file, is the first line.
proof fn lemma_is_first_line(bytes: Seq<u8>, n: nat)
    requires
        0 < n <= bytes.len(),
        forall|i: int| 0 <= i < n - 1 ==> #[trigger] bytes[i] != 0x0a,
        n < bytes.len() ==> bytes[n - 1] == 0x0a,
    ensures
        first_line_len(bytes) == n,
{
    lemma_first_line_len(bytes);
    let found = first_line_len(bytes);
    if found < n {
        assert(bytes[found - 1] != 0x0a);
    } else if n < found {
        assert(bytes[n - 1] != 0x0a);
    }
}

/// The two parts of a line before and behind its first comma.
pub open spec fn split_once(line: Seq<char>) -> Option<(Seq<char>, Seq<char>)> {
    let comma = first_place(line, ',');
    if comma < line.len() {
        Some((line.take(comma as int), line.skip(comma as int + 1)))
    } else {
        None
    }
}

/// The plugins in the lines, each with its class. A line without a comma is passed over.
pub open spec fn plugins_in(lines: Seq<Seq<char>>) -> Seq<(Seq<char>, Seq<char>)>
    decreases lines.len(),
{
    if lines.len() == 0 {
        Seq::empty()
    } else {
        match split_once(lines.last()) {
            Some(plugin) => plugins_in(lines.drop_last()).push(plugin),
            None => plugins_in(lines.drop_last()),
        }
    }
}

/// The declaration of the function that registers a plugin.
pub open spec fn declaration(plugin: (Seq<char>, Seq<char>)) -> Seq<char> {
    "#[link(name = \""@ + plugin.0 + "_plugin\")]\nunsafe extern \"C\" {\n    fn "@ + plugin.1
        + "RegisterWithRegistrar(registrar: *mut std::ffi::c_void);\n}\n"@
}

/// The reference to the function that registers a plugin.
pub open spec fn reference(plugin: (Seq<char>, Seq<char>)) -> Seq<char> {
    plugin.1 + "RegisterWithRegistrar,\n"@
}

/// The declarations for some plugins.
pub open spec fn declarations(plugins: Seq<(Seq<char>, Seq<char>)>) -> Seq<char>
    decreases plugins.len(),
{
    if plugins.len() == 0 {
        Seq::empty()
    } else {
        declarations(plugins.drop_last()) + declaration(plugins.last())
    }
}

/// The references for some plugins.
pub open spec fn references(plugins: Seq<(Seq<char>, Seq<char>)>) -> Seq<char>
    decreases plugins.len(),
{
    if plugins.len() == 0 {
        Seq::empty()
    } else {
        references(plugins.drop_last()) + reference(plugins.last())
    }
}

/// The source file that registers some plugins.
pub open spec fn registrant(plugins: Seq<(Seq<char>, Seq<char>)>) -> Seq<char> {
    declarations(plugins)
        + "\nstatic PLUGINS: &[unsafe extern \"C\" fn(*mut std::ffi::c_void)] = &[\n"@
        + references(plugins) + "\n];\n"@
}

/// The lines of a text.
pub fn split_lines(text: &str) -> (res: Vec<String>)
    ensures
        res@.map_values(|s: String| s@) == lines_of(text@),
{
    let chars = chars_of(text);
    let ghost all = text@;
    let mut lines: Vec<String> = Vec::new();
    let mut start: usize = 0;
    assert(all.skip(0) =~= all);
    assert(lines@.map_values(|s: String| s@) + lines_of(all) =~= lines_of(all));
    while start < chars.len()
        invariant
            start <= chars@.len(),
            chars@ == all,
            all == text@,
            lines@.map_values(|s: String| s@) + lines_of(all.skip(start as int)) == lines_of(all),
        decreases chars@.len() - start,
    {
        let ghost rest = all.skip(start as int);
        let ghost before = lines@.map_values(|s: String| s@);
        let end: usize = find_char(&chars, start, '\n');
        if end == chars.len() {
            let line = text.substring_char(start, end).to_owned();
            assert(line@ =~= rest);
            lines.push(line);
            assert(lines@.map_values(|s: String| s@) =~= before.push(line@));
            assert(all.skip(end as int) =~= Seq::empty());
            assert(before.push(line@) =~= before + seq![line@]);
            assert(lines@.map_values(|s: String| s@) + lines_of(all.skip(end as int)) =~= lines_of(
                all,
            ));
            start = end;
        } else {
            let stop: usize = if end > start && chars[end - 1] == '\r' {
                end - 1
            } else {
                end
            };
            let line = text.substring_char(start, stop).to_owned();
            assert(rest.take(end - start) =~= all.subrange(start as int, end as int));
            assert(line@ =~= chomped(rest.take(end - start)));
            lines.push(line);
            assert(lines@.map_values(|s: String| s@) =~= before.push(line@));
            assert(rest.skip(end - start + 1) =~= all.skip(end + 1));
            assert(lines@.map_values(|s: String| s@) + lines_of(all.skip(end + 1)) =~= before + (
            seq![line@] + lines_of(all.skip(end + 1))));
            start = end + 1;
        }
    }
    assert(all.skip(start as int) =~= Seq::empty());
    assert(lines@.map_values(|s: String| s@) + Seq::empty() =~= lines@.map_values(
        |s: String| s@,
    ));
    lines
}

/// The line of a file that starts at `start`, with its line feed.
fn line_at(bytes: &Vec<u8>, start: usize) -> (res: Vec<u8>)
    requires
        start < bytes@.len(),
    ensures
        0 < res@.len() == first_line_len(bytes@.skip(start as int)) <= bytes@.len() - start,
        res@ == bytes@.skip(start as int).take(res@.len() as int),
{
    let ghost rest = bytes@.skip(start as int);
    let mut line: Vec<u8> = Vec::new();
    let mut i: usize = start;
    while i < bytes.len()
        invariant
            start <= i <= bytes@.len(),
            start < bytes@.len(),
            rest == bytes@.skip(start as int),
            line@ == rest.take(i - start),
            forall|j: int| 0 <= j < i - start ==> #[trigger] rest[j] != 0x0a,
        decreases bytes@.len() - i,
    {
        let byte: u8 = bytes[i];
        assert(rest[i - start] == byte);
        assert(rest.take(i - start).push(byte) =~= rest.take(i + 1 - start));
        line.push(byte);
        i += 1;
        if byte == 0x0a {
            proof {
                lemma_is_first_line(rest, (i - start) as nat);
            }
            return line;
        }
    }
    proof {
        lemma_is_first_line(rest, (i - start) as nat);
    }
    line
}

/// The text of the lines of a file before the first that is not UTF-8.
pub fn read_text(bytes: &Vec<u8>) -> (res: String)
    ensures
        encode_utf8(res@) == readable_bytes(bytes@),
        res@ == readable_text(bytes@),
{
    let ghost all = bytes@;
    let mut text = String::new();
    let mut start: usize = 0;
    assert(all.skip(0) =~= all);
    assert(encode_utf8(text@) + readable_bytes(all) =~= readable_bytes(all));
    while start < bytes.len()
        invariant
            start <= bytes@.len(),
            all == bytes@,
            encode_utf8(text@) + readable_bytes(all.skip(start as int)) == readable_bytes(all),
        decreases bytes@.len() - start,
    {
        let ghost rest = all.skip(start as int);
        let ghost before = text@;
        let line = line_at(bytes, start);
        match text_from_utf8(&line) {
            Some(part) => {
                proof {
                    encode_utf8_valid_utf8(part@);
                    lemma_encode_concat(before, part@);
                    assert(rest.skip(line@.len() as int) =~= all.skip(start + line@.len()));
                }
                text.append(part.as_str());
                start += line.len();
                assert(encode_utf8(text@) + readable_bytes(all.skip(start as int)) =~= encode_utf8(
                    before,
                ) + readable_bytes(rest));
            },
            None => {
                proof {
                    assert(encode_utf8(text@) + readable_bytes(rest) =~= encode_utf8(text@));
                    encode_utf8_decode_utf8(text@);
                }
                return text;
            },
        }
    }
    proof {
        assert(all.skip(start as int) =~= Seq::empty());
        assert(encode_utf8(text@) + readable_bytes(all.skip(start as int)) =~= encode_utf8(text@));
        encode_utf8_decode_utf8(text@);
    }
    text
}

/// The lines of a file before the first that is not UTF-8.
pub fn read_lines(bytes: &Vec<u8>) -> (res: Vec<String>)
    ensures
        res@.map_values(|s: String| s@) == lines_of(readable_text(bytes@)),
{
    let text = read_text(bytes);
    split_lines(text.as_str())
}

/// The two parts of a line before and behind its first comma.
pub fn split_at_comma(line: &str) -> (res: Option<(String, String)>)
    ensures
        match res {
            Some((name, class)) => split_once(line@) == Some((name@, class@)),
            None => split_once(line@) is None,
        },
{
    let chars = chars_of(line);
    assert(chars@.skip(0) =~= chars@);
    let comma: usize = find_char(&chars, 0, ',');
    if comma == chars.len() {
        None
    } else {
        let name = line.substring_char(0, comma).to_owned();
        let class = line.substring_char(comma + 1, chars.len()).to_owned();
        assert(name@ =~= line@.take(comma as int));
        assert(class@ =~= line@.skip(comma + 1));
        Some((name, class))
    }
}

/// The source file that registers the plugins in some lines.
pub fn generate_plugins_registrant(lines: &Vec<String>) -> (res: String)
    ensures
        res@ == registrant(plugins_in(lines@.map_values(|s: String| s@))),
{
    let ghost all = lines@.map_values(|s: String| s@);
    let mut externs = String::new();
    let mut consts = String::new();
    let mut i: usize = 0;
    while i < lines.len()
        invariant
            i <= lines@.len(),
            all == lines@.map_values(|s: String| s@),
            externs@ == declarations(plugins_in(all.take(i as int))),
            consts@ == references(plugins_in(all.take(i as int))),
        decreases lines@.len() - i,
    {
        let ghost before = plugins_in(all.take(i as int));
        assert(all.take(i + 1).drop_last() =~= all.take(i as int));
        assert(all.take(i + 1).last() == lines@[i as int]@);
        if let Some((name, class)) = split_at_comma(lines[i].as_str()) {
            let ghost plugin = (name@, class@);
            let ghost old_externs = externs@;
            let ghost old_consts = consts@;
            externs.append("#[link(name = \"");
            externs.append(name.as_str());
            externs.append("_plugin\")]\nunsafe extern \"C\" {\n    fn ");
            externs.append(class.as_str());
            externs.append("RegisterWithRegistrar(registrar: *mut std::ffi::c_void);\n}\n");
            consts.append(class.as_str());
            consts.append("RegisterWithRegistrar,\n");
            assert(before.push(plugin).drop_last() =~= before);
            assert(externs@ =~= old_externs + declaration(plugin));
            assert(consts@ =~= old_consts + reference(plugin));
        }
        i += 1;
    }
    assert(all.take(i as int) =~= all);
    let mut file = externs;
    file.append("\nstatic PLUGINS: &[unsafe extern \"C\" fn(*mut std::ffi::c_void)] = &[\n");
    file.append(consts.as_str());
    file.append("\n];\n");
    file
}

/// The text that lists some plugins, a line each.
pub open spec fn listed(plugins: Seq<(Seq<char>, Seq<char>)>) -> Seq<char>
    decreases plugins.len(),
{
    if plugins.len() == 0 {
        Seq::empty()
    } else {
        plugin_line(plugins[0].0, plugins[0].1) + listed(plugins.skip(1))
    }
}

/// Whether a plugin can be told from its line: the name has no comma, neither the name nor the
/// class has a line feed, and the class does not end with a carriage return.
pub open spec fn is_plain(plugin: (Seq<char>, Seq<char>)) -> bool {
    &&& !plugin.0.contains(',')
    &&& !plugin.0.contains('\n')
    &&& !plugin.1.contains('\n')
    &&& plugin.1.len() > 0 ==> plugin.1.last() != '\r'
}

/// The plugins in a list that was written are the plugins that it was written for.
pub proof fn listed_plugins_are_found(plugins: Seq<(Seq<char>, Seq<char>)>)
    requires
        forall|i: int| 0 <= i < plugins.len() ==> is_plain(#[trigger] plugins[i]),
    ensures
        plugins_in(lines_of(listed(plugins))) == plugins,
    decreases plugins.len(),
{
    if plugins.len() == 0 {
        assert(plugins_in(lines_of(listed(plugins))) =~= plugins);
    } else {
        let (name, class) = plugins[0];
        let rest = plugins.skip(1);
        let text = listed(plugins);
        let line = name + ","@ + class;
        reveal_strlit(",");
        reveal_strlit("\n");
        assert(is_plain(plugins[0]));
        assert(text =~= line + seq!['\n'] + listed(rest));
        assert forall|i: int| 0 <= i < line.len() implies #[trigger] text[i] != '\n' by {
            assert(text[i] == line[i]);
            if i < name.len() {
                assert(line[i] == name[i]);
                assert(name.contains(name[i]));
            } else if i > name.len() {
                assert(line[i] == class[i - name.len() - 1]);
                assert(class.contains(class[i - name.len() - 1]));
            }
        }
        assert(text[line.len() as int] == '\n');
        lemma_is_first_place(text, '\n', line.len());
        assert(text.take(line.len() as int) =~= line);
        assert(text.skip(line.len() as int + 1) =~= listed(rest));
        assert(chomped(line) == line) by {
            if class.len() > 0 {
                assert(line.last() == class.last());
            } else {
                assert(line.last() == ',');
            }
        }
        assert(split_once(line) == Some((name, class))) by {
            assert forall|i: int| 0 <= i < name.len() implies #[trigger] line[i] != ',' by {
                assert(line[i] == name[i]);
                assert(name.contains(name[i]));
            }
            lemma_is_first_place(line, ',', name.len());
            assert(line.take(name.len() as int) =~= name);
            assert(line.skip(name.len() as int + 1) =~= class);
        }
        assert forall|i: int| 0 <= i < rest.len() implies is_plain(#[trigger] rest[i]) by {
            assert(rest[i] == plugins[i + 1]);
        }
        listed_plugins_are_found(rest);
        lemma_first_line(line, lines_of(listed(rest)));
        assert(lines_of(text) == seq![line] + lines_of(listed(rest)));
        assert(seq![plugins[0]] + rest =~= plugins);
    }
}

/// The plugins of a project that are built and have a class, each with its class.
pub open spec fn with_class(plugins: Seq<(Seq<char>, PluginTargetView)>) -> Seq<
    (Seq<char>, Seq<char>),
>
    decreases plugins.len(),
{
    if plugins.len() == 0 {
        Seq::empty()
    } else {
        match plugins.last().1 {
            PluginTargetView::Build { class: Some(class) } => with_class(plugins.drop_last()).push(
                (plugins.last().0, class),
            ),
            _ => with_class(plugins.drop_last()),
        }
    }
}

/// What is read from the list that the plugins of a project are written to: the plugins that
/// are built and have a class, in order.
pub proof fn written_list_is_read_back(plugins: Seq<(Seq<char>, PluginTargetView)>)
    requires
        forall|i: int|
            0 <= i < with_class(plugins).len() ==> is_plain(#[trigger] with_class(plugins)[i]),
    ensures
        plugins_in(lines_of(list_of(plugins).list)) == with_class(plugins),
{
    lemma_list_text(plugins);
    listed_plugins_are_found(with_class(plugins));
}

/// A file that is UTF-8 is read whole.
pub proof fn utf8_is_read_whole(bytes: Seq<u8>)
    requires
        valid_utf8(bytes),
    ensures
        readable_bytes(bytes) == bytes,
    decreases bytes.len(),
{
    lemma_first_line_len(bytes);
    let n = first_line_len(bytes) as int;
    if bytes.len() > 0 {
        if n < bytes.len() {
            lemma_split_behind_line_feed(bytes, n);
        } else {
            assert(bytes.take(n) =~= bytes);
            assert(bytes.skip(n) =~= Seq::empty());
        }
        utf8_is_read_whole(bytes.skip(n));
        assert(bytes.take(n) + bytes.skip(n) =~= bytes);
    } else {
        assert(readable_bytes(bytes) =~= bytes);
    }
}

/// What is read from the file that the list of the plugins of a project is written to: the
/// plugins that are built and have a class, in order.
pub proof fn written_file_is_read_back(plugins: Seq<(Seq<char>, PluginTargetView)>)
    requires
        forall|i: int|
            0 <= i < with_class(plugins).len() ==> is_plain(#[trigger] with_class(plugins)[i]),
    ensures
        plugins_in(lines_of(readable_text(encode_utf8(list_of(plugins).list)))) == with_class(
            plugins,
        ),
{
    let list = list_of(plugins).list;
    encode_utf8_valid_utf8(list);
    utf8_is_read_whole(encode_utf8(list));
    encode_utf8_decode_utf8(list);
    written_list_is_read_back(plugins);
}

/// The text of the list.
proof fn lemma_list_text(plugins: Seq<(Seq<char>, PluginTargetView)>)
    ensures
        list_of(plugins).list == listed(with_class(plugins)),
    decreases plugins.len(),
{
    if plugins.len() > 0 {
        let fewer = plugins.drop_last();
        lemma_list_text(fewer);
        if plugins.last().1 is Build && plugins.last().1->class is Some {
            lemma_one_more_line(with_class(fewer), (plugins.last().0, plugins.last().1->class->0));
        }
    }
}

/// One more line at the end of the list.
proof fn lemma_one_more_line(
    plugins: Seq<(Seq<char>, Seq<char>)>,
    plugin: (Seq<char>, Seq<char>),
)
    ensures
        listed(plugins.push(plugin)) == listed(plugins) + plugin_line(plugin.0, plugin.1),
    decreases plugins.len(),
{
    let more = plugins.push(plugin);
    let line = plugin_line(plugin.0, plugin.1);
    if plugins.len() == 0 {
        assert(more.skip(1) =~= Seq::empty());
        assert(line + listed(more.skip(1)) =~= listed(plugins) + line);
    } else {
        assert(more.skip(1) =~= plugins.skip(1).push(plugin));
        lemma_one_more_line(plugins.skip(1), plugin);
        let first = plugin_line(plugins[0].0, plugins[0].1);
        assert(first + (listed(plugins.skip(1)) + line) =~= first + listed(plugins.skip(1)) + line);
    }
}

/// The plugin of the first line comes first.
proof fn lemma_first_line(line: Seq<char>, lines: Seq<Seq<char>>)
    requires
        split_once(line) is Some,
    ensures
        plugins_in(seq![line] + lines) == seq![split_once(line)->0] + plugins_in(lines),
    decreases lines.len(),
{
    let all = seq![line] + lines;
    if lines.len() == 0 {
        assert(all.drop_last() =~= Seq::empty());
        assert(all.last() == line);
        assert(plugins_in(all.drop_last()) =~= Seq::empty());
        assert(plugins_in(all) =~= seq![split_once(line)->0] + plugins_in(lines));
    } else {
        assert(all.drop_last() =~= seq![line] + lines.drop_last());
        assert(all.last() == lines.last());
        lemma_first_line(line, lines.drop_last());
        assert(plugins_in(all) =~= seq![split_once(line)->0] + plugins_in(lines));
    }
}

/// A line ends at its line feed, and a carriage return right before that does not belong to it. What
/// follows is read as if it stood alone. A text without a line feed is one line, if it is not empty.
pub proof fn lines_end_at_line_feeds(line: Seq<char>, rest: Seq<char>)
    requires
        !line.contains('\n'),
    ensures
        line.len() > 0 ==> lines_of(line) == seq![line],
        lines_of(Seq::<char>::empty()).len() == 0,
        (line.len() == 0 || line.last() != '\r') ==> lines_of(line + seq!['\n'] + rest) == seq![line]
            + lines_of(rest),
        lines_of(line + seq!['\r', '\n'] + rest) == seq![line] + lines_of(rest),
{
    assert forall|i: int| 0 <= i < line.len() implies #[trigger] line[i] != '\n' by {
        assert(line.contains(line[i]));
    }
    lemma_is_first_place(line, '\n', line.len());
    let plain = line + seq!['\n'] + rest;
    assert forall|i: int| 0 <= i < line.len() implies #[trigger] plain[i] != '\n' by {
        assert(plain[i] == line[i]);
    }
    assert(plain[line.len() as int] == '\n');
    lemma_is_first_place(plain, '\n', line.len());
    assert(plain.take(line.len() as int) =~= line);
    assert(plain.skip(line.len() as int + 1) =~= rest);
    let long = line + seq!['\r', '\n'] + rest;
    let end = line.len() + 1;
    assert forall|i: int| 0 <= i < end implies #[trigger] long[i] != '\n' by {
        if i < line.len() {
            assert(long[i] == line[i]);
        }
    }
    assert(long[end as int] == '\n');
    lemma_is_first_place(long, '\n', end);
    assert(long.take(end as int) =~= line.push('\r'));
    assert(line.push('\r').drop_last() =~= line);
    assert(long.skip(end as int + 1) =~= rest);
}

/// A line is split at its first comma, which belongs to neither part, and only if it has one.
pub proof fn lines_are_split_at_the_first_comma(line: &str, parts: Option<(String, String)>)
    requires
        call_ensures(split_at_comma, (line,), parts),
    ensures
        parts is Some <==> line@.contains(','),
        parts is Some ==> {
            let (name, class) = parts->0;
            &&& line@ == name@ + seq![','] + class@
            &&& !name@.contains(',')
        },
{
    lemma_first_place(line@, ',');
    let comma = first_place(line@, ',') as int;
    if comma < line@.len() {
        assert(line@.contains(line@[comma]));
        assert(line@ =~= line@.take(comma) + seq![','] + line@.skip(comma + 1));
        if line@.take(comma).contains(',') {
            let i = choose|i: int| 0 <= i < comma && line@.take(comma)[i] == ',';
            assert(line@[i] == ',');
        }
    } else if line@.contains(',') {
        let i = choose|i: int| 0 <= i < line@.len() && line@[i] == ',';
        assert(line@[i] != ',');
    }
}

/// Whether a source file declares and then refers to what it registers.
pub open spec fn is_source_file(file: Seq<char>, declared: Seq<char>, referred: Seq<char>) -> bool {
    file == declared
        + "\nstatic PLUGINS: &[unsafe extern \"C\" fn(*mut std::ffi::c_void)] = &[\n"@ + referred
        + "\n];\n"@
}

/// One more line at the end of the list, with a comma in it, adds one declaration behind the others
/// and one reference behind the others to the file, with the name and the class of that line. A line
/// without a comma adds nothing. No lines give a file that registers nothing.
pub proof fn each_line_registers_its_plugin(
    lines: Vec<String>,
    more: Vec<String>,
    file: String,
    larger: String,
    name: Seq<char>,
    class: Seq<char>,
)
    requires
        call_ensures(generate_plugins_registrant, (&lines,), file),
        call_ensures(generate_plugins_registrant, (&more,), larger),
        more@.len() == lines@.len() + 1,
        forall|i: int| 0 <= i < lines@.len() ==> (#[trigger] more@[i])@ == lines@[i]@,
    ensures
        lines@.len() == 0 ==> is_source_file(file@, seq![], seq![]),
        !more@.last()@.contains(',') ==> larger@ == file@,
        more@.last()@ == name + seq![','] + class && !name.contains(',') ==> exists|
            declared: Seq<char>,
            referred: Seq<char>,
        |
            #[trigger] is_source_file(file@, declared, referred) && is_source_file(
                larger@,
                declared + "#[link(name = \""@ + name
                    + "_plugin\")]\nunsafe extern \"C\" {\n    fn "@ + class
                    + "RegisterWithRegistrar(registrar: *mut std::ffi::c_void);\n}\n"@,
                referred + class + "RegisterWithRegistrar,\n"@,
            ),
{
    let few = lines@.map_values(|s: String| s@);
    let all = more@.map_values(|s: String| s@);
    let last = more@.last()@;
    assert(all.drop_last() =~= few);
    assert(all.last() == last);
    lemma_first_place(last, ',');
    let found = plugins_in(few);
    let declared = declarations(found);
    let referred = references(found);
    assert(is_source_file(file@, declared, referred));
    if lines@.len() == 0 {
        assert(few =~= seq![]);
        assert(declared =~= seq![]);
        assert(referred =~= seq![]);
    }
    if !last.contains(',') {
        let place = first_place(last, ',') as int;
        if place < last.len() {
            assert(last.contains(last[place]));
        }
    }
    if last == name + seq![','] + class && !name.contains(',') {
        assert forall|i: int| 0 <= i < name.len() implies #[trigger] last[i] != ',' by {
            assert(last[i] == name[i]);
            assert(name.contains(name[i]));
        }
        assert(last[name.len() as int] == ',');
        lemma_is_first_place(last, ',', name.len());
        assert(last.take(name.len() as int) =~= name);
        assert(last.skip(name.len() as int + 1) =~= class);
        let plugin = (name, class);
        assert(plugins_in(all) == found.push(plugin));
        assert(found.push(plugin).drop_last() =~= found);
        assert(declarations(plugins_in(all)) =~= declared + "#[link(name = \""@ + name
            + "_plugin\")]\nunsafe extern \"C\" {\n    fn "@ + class
            + "RegisterWithRegistrar(registrar: *mut std::ffi::c_void);\n}\n"@);
        assert(references(plugins_in(all)) =~= referred + class + "RegisterWithRegistrar,\n"@);
        assert(is_source_file(
            larger@,
            declarations(plugins_in(all)),
            references(plugins_in(all)),
        ));
    }
}

/// A file is read up to its first line that is not UTF-8: all of what stands before that line, and
/// nothing of it or behind it. A file that is UTF-8 is read whole.
pub proof fn reading_stops_at_the_first_bad_line(
    bytes: Vec<u8>,
    text: String,
    good: Seq<u8>,
    bad: Seq<u8>,
    rest: Seq<u8>,
)
    requires
        call_ensures(read_text, (&bytes,), text),
        bytes@ == good + bad + rest,
        valid_utf8(good),
        bad.len() == 0 ==> rest.len() == 0,
        bad.len() > 0 ==> {
            &&& good.len() == 0 || good.last() == 0x0a
            &&& !valid_utf8(bad)
            &&& forall|i: int| 0 <= i < bad.len() - 1 ==> #[trigger] bad[i] != 0x0a
            &&& rest.len() == 0 || bad.last() == 0x0a
        },
    ensures
        encode_utf8(text@) == good,
{
    if bad.len() == 0 {
        assert(bytes@ =~= good);
        utf8_is_read_whole(good);
    } else {
        lemma_bad_line(good, bad, rest);
    }
}

proof fn lemma_bad_line(good: Seq<u8>, bad: Seq<u8>, rest: Seq<u8>)
    requires
        valid_utf8(good),
        good.len() == 0 || good.last() == 0x0a,
        bad.len() > 0,
        !valid_utf8(bad),
        forall|i: int| 0 <= i < bad.len() - 1 ==> #[trigger] bad[i] != 0x0a,
        rest.len() == 0 || bad.last() == 0x0a,
    ensures
        readable_bytes(good + bad + rest) == good,
    decreases good.len(),
{
    let all = good + bad + rest;
    if good.len() == 0 {
        assert forall|i: int| 0 <= i < bad.len() - 1 implies #[trigger] all[i] != 0x0a by {
            assert(all[i] == bad[i]);
        }
        assert(all[bad.len() - 1] == bad.last());
        lemma_is_first_line(all, bad.len());
        assert(all.take(bad.len() as int) =~= bad);
        assert(readable_bytes(all) =~= good);
    } else {
        lemma_first_line_len(good);
        let n = first_line_len(good);
        assert(good[n - 1] == 0x0a);
        assert forall|i: int| 0 <= i < n - 1 implies #[trigger] all[i] != 0x0a by {
            assert(all[i] == good[i]);
        }
        assert(all[n - 1] == good[n - 1]);
        lemma_is_first_line(all, n);
        lemma_split_behind_line_feed(good, n as int);
        let after = good.skip(n as int);
        lemma_bad_line(after, bad, rest);
        assert(all.take(n as int) =~= good.take(n as int));
        assert(all.skip(n as int) =~= after + bad + rest);
        assert(good.take(n as int) + after =~= good);
    }
}

/// The lines of a file are the lines of the text that is read from it.
pub proof fn lines_are_those_of_the_text(bytes: Vec<u8>, text: String, lines: Vec<String>, i: int)
    requires
        call_ensures(read_text, (&bytes,), text),
        call_ensures(read_lines, (&bytes,), lines),
        0 <= i < lines@.len(),
    ensures
        lines@.len() == lines_of(text@).len(),
        lines@[i]@ == lines_of(text@)[i],
{
    let texts = lines@.map_values(|s: String| s@);
    assert(texts.len() == lines@.len());
    assert(texts[i] == lines@[i]@);
}

/// The first line of a text is what stands before the first line feed, without a carriage return
/// right before that, and the others are the lines of what follows.
pub proof fn text_is_split_at_line_feeds(
    text: &str,
    rest: &str,
    lines: Vec<String>,
    rest_lines: Vec<String>,
    line: Seq<char>,
    i: int,
)
    requires
        call_ensures(split_lines, (text,), lines),
        call_ensures(split_lines, (rest,), rest_lines),
        !line.contains('\n'),
        text@ == line + seq!['\r', '\n'] + rest@ || (text@ == line + seq!['\n'] + rest@ && (line.len()
            == 0 || line.last() != '\r')),
        0 <= i < rest_lines@.len(),
    ensures
        lines@.len() == rest_lines@.len() + 1,
        lines@[0]@ == line,
        lines@[i + 1]@ == rest_lines@[i]@,
{
    lines_end_at_line_feeds(line, rest@);
    let all = lines@.map_values(|s: String| s@);
    let others = rest_lines@.map_values(|s: String| s@);
    assert(all == seq![line] + others);
    assert(all.len() == lines@.len());
    assert(others.len() == rest_lines@.len());
    assert(all[0] == lines@[0]@);
    assert(all[i + 1] == lines@[i + 1]@);
    assert(others[i] == rest_lines@[i]@);
}

} // verus!
