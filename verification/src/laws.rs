//! What holds of every usage text, proved from the model.

use vstd::prelude::*;
use crate::args::Args;
use crate::grapheme::{
    extends_grapheme, grapheme_count, is_whole, lemma_grapheme_count_concat,
    lemma_grapheme_count_plain,
};
use crate::model::{max_long_length, spaces, ArgsView, OptView};

verus! {

/// No option is measured wider than `max_long_length` of the list it is in.
pub proof fn lemma_long_length_within_max(opts: Seq<OptView>, i: int)
    requires
        0 <= i < opts.len(),
    ensures
        opts[i].long_length() <= max_long_length(opts),
    decreases opts.len(),
{
    if i < opts.len() - 1 {
        lemma_long_length_within_max(opts.drop_last(), i);
    }
}

/// Some option of a list that is not empty is measured exactly as wide as
/// `max_long_length` of the list.
pub proof fn lemma_max_long_length_attained(opts: Seq<OptView>) -> (i: int)
    requires
        opts.len() > 0,
    ensures
        0 <= i < opts.len(),
        opts[i].long_length() == max_long_length(opts),
    decreases opts.len(),
{
    let rest = opts.drop_last();
    if rest.len() == 0 {
        assert(max_long_length(rest) == 0);
        0
    } else if max_long_length(rest) < opts.last().long_length() {
        opts.len() - 1
    } else {
        lemma_max_long_length_attained(rest)
    }
}

/// Where there are options, the column width is the maximum of their
/// measured widths: none is wider, and one is exactly as wide.
pub proof fn lemma_column_width_is_maximum(a: ArgsView)
    requires
        a.opts.len() > 0,
    ensures
        forall|i: int|
            0 <= i < a.opts.len() ==> (#[trigger] a.opts[i]).long_length() <= a.column_width(),
        exists|i: int|
            0 <= i < a.opts.len() && (#[trigger] a.opts[i]).long_length() == a.column_width(),
{
    assert forall|i: int| 0 <= i < a.opts.len() implies (#[trigger] a.opts[i]).long_length()
        <= a.column_width() by {
        lemma_long_length_within_max(a.opts, i);
    }
    let k = lemma_max_long_length_attained(a.opts);
    assert(a.opts[k].long_length() == a.column_width());
}

/// A run of spaces is as many columns wide as it has spaces, and is whole.
pub proof fn lemma_spaces_width(n: nat)
    ensures
        grapheme_count(spaces(n)) == n,
        is_whole(spaces(n)),
{
    lemma_grapheme_count_plain(spaces(n));
}

/// The short field is as wide as the short prefix and one column more,
/// whether the option has a short name or not, as long as the short name is
/// a grapheme of its own.
pub proof fn lemma_short_field_width(o: OptView, short_opt: Seq<char>)
    requires
        o.short matches Some(c) ==> !extends_grapheme(c),
    ensures
        grapheme_count(o.short_field(short_opt)) == grapheme_count(short_opt) + 1,
        is_whole(short_opt) ==> is_whole(o.short_field(short_opt)),
{
    match o.short {
        Some(c) => {
            assert(short_opt.push(c) == short_opt + seq![c]);
            lemma_grapheme_count_plain(seq![c]);
            lemma_grapheme_count_concat(short_opt, seq![c]);
        },
        None => {
            lemma_spaces_width(grapheme_count(short_opt) + 1);
        },
    }
}

/// The long field is as wide as the long prefix, the long name and, where
/// there is an argument, `=` and the argument's name, as long as none of
/// them begins in the middle of a grapheme.
pub proof fn lemma_long_field_width(o: OptView, long_opt: Seq<char>)
    requires
        is_whole(long_opt),
        o.well_formed(),
    ensures
        grapheme_count(o.long_field(long_opt)) == grapheme_count(long_opt) + o.printed_length(),
        is_whole(o.long_field(long_opt)),
{
    lemma_grapheme_count_concat(long_opt, o.long);
    match o.arg {
        Some(a) => {
            lemma_grapheme_count_plain(seq!['=']);
            lemma_grapheme_count_concat(seq!['='], a.name);
            lemma_grapheme_count_concat(long_opt + o.long, seq!['='] + a.name);
        },
        None => {
            assert(long_opt + o.long + Seq::<char>::empty() == long_opt + o.long);
        },
    }
}

/// In the line of any option that has a documentation, `doc_start` chars
/// stand before the documentation, and the newline follows it and ends the
/// line.
pub proof fn lemma_documentation_place(a: ArgsView, i: int)
    requires
        0 <= i < a.opts.len(),
        a.opts[i].doc.len() > 0,
    ensures
        ({
            let o = a.opts[i];
            let line = o.line(a.short_opt, a.long_opt, a.newline, a.column_width());
            let start = o.doc_start(a.short_opt, a.long_opt, a.column_width()) as int;
            &&& o.long_length() <= a.column_width()
            &&& line.len() == start + o.doc.len() + a.newline.len()
            &&& line.subrange(start, start + o.doc.len()) == o.doc
            &&& line.subrange(start + o.doc.len(), line.len() as int) == a.newline
        }),
{
    let o = a.opts[i];
    lemma_long_length_within_max(a.opts, i);
    let head = spaces(2) + o.short_field(a.short_opt) + o.connective() + o.long_field(a.long_opt)
        + spaces((a.column_width() - o.long_length()) as nat) + seq![' '];
    let line = o.line(a.short_opt, a.long_opt, a.newline, a.column_width());
    let start = o.doc_start(a.short_opt, a.long_opt, a.column_width()) as int;
    assert(line == head + o.doc + a.newline);
    assert(head.len() == start);
    assert(line.subrange(start, start + o.doc.len()) == o.doc);
    assert(line.subrange(start + o.doc.len(), line.len() as int) == a.newline);
}

/// The column at which a documentation starts: what stands before it in its
/// line is `doc_column()` columns wide, and as many more as the option's
/// names are printed wider than they are measured. This holds where neither
/// prefix and no text of the option begins in the middle of a grapheme.
pub proof fn lemma_documentation_column(a: ArgsView, i: int)
    requires
        0 <= i < a.opts.len(),
        a.opts[i].doc.len() > 0,
        is_whole(a.short_opt),
        is_whole(a.long_opt),
        a.opts[i].well_formed(),
    ensures
        ({
            let o = a.opts[i];
            let line = o.line(a.short_opt, a.long_opt, a.newline, a.column_width());
            let start = o.doc_start(a.short_opt, a.long_opt, a.column_width()) as int;
            &&& o.long_length() <= o.printed_length()
            &&& grapheme_count(line.take(start)) == a.doc_column() + o.printed_length()
                - o.long_length()
        }),
{
    let o = a.opts[i];
    let width = a.column_width();
    lemma_documentation_place(a, i);
    let pad = (width - o.long_length()) as nat;
    let h1 = spaces(2);
    let h2 = h1 + o.short_field(a.short_opt);
    let h3 = h2 + o.connective();
    let h4 = h3 + o.long_field(a.long_opt);
    let h5 = h4 + spaces(pad);
    let h6 = h5 + seq![' '];
    let line = o.line(a.short_opt, a.long_opt, a.newline, width);
    let start = o.doc_start(a.short_opt, a.long_opt, width) as int;
    assert(line == h6 + o.doc + a.newline);
    assert(line.take(start) == h6);
    lemma_spaces_width(2);
    lemma_short_field_width(o, a.short_opt);
    lemma_grapheme_count_concat(h1, o.short_field(a.short_opt));
    lemma_grapheme_count_plain(o.connective());
    lemma_grapheme_count_concat(h2, o.connective());
    lemma_long_field_width(o, a.long_opt);
    lemma_grapheme_count_concat(h3, o.long_field(a.long_opt));
    lemma_spaces_width(pad);
    lemma_grapheme_count_concat(h4, spaces(pad));
    lemma_grapheme_count_plain(seq![' ']);
    lemma_grapheme_count_concat(h5, seq![' ']);
}

/// Every documentation starts at the same column: in the line of each
/// option that has a documentation and no name over the cap, what stands
/// before the documentation is `doc_column()` columns wide, whatever the
/// option's own names are. This holds where neither prefix and no text of
/// the option begins in the middle of a grapheme.
pub proof fn lemma_documentation_aligned(a: ArgsView, i: int)
    requires
        0 <= i < a.opts.len(),
        a.opts[i].doc.len() > 0,
        a.opts[i].within_cap(),
        is_whole(a.short_opt),
        is_whole(a.long_opt),
        a.opts[i].well_formed(),
    ensures
        ({
            let o = a.opts[i];
            let line = o.line(a.short_opt, a.long_opt, a.newline, a.column_width());
            let start = o.doc_start(a.short_opt, a.long_opt, a.column_width()) as int;
            &&& line.subrange(start, start + o.doc.len()) == o.doc
            &&& grapheme_count(line.take(start)) == a.doc_column()
        }),
{
    lemma_documentation_place(a, i);
    lemma_documentation_column(a, i);
}

/// Rendering has no hidden state: the texts of two descriptions that read
/// the same are the same, whatever the keys of their options are.
pub proof fn lemma_rendering_is_determined<O, P>(
    first: Args<'_, '_, O>,
    second: Args<'_, '_, P>,
)
    requires
        first@ == second@,
    ensures
        first@.text() == second@.text(),
{
}

/// Without options the usage text is the synopsis without the word for
/// options, the leading documentation where there is one, and one closing
/// newline; nothing stands behind it.
pub proof fn lemma_no_options_header_only(a: ArgsView)
    requires
        a.opts.len() == 0,
    ensures
        a.leading_doc.len() == 0 ==> a.text() == a.usage_word + seq![':', ' '] + a.prog
            + a.newline,
        a.leading_doc.len() > 0 ==> a.text() == a.usage_word + seq![':', ' '] + a.prog + a.newline
            + a.leading_doc + a.newline,
{
}

/// The notice on mandatory arguments is part of the text if and only if
/// some option has an argument that may not be left out. It then stands
/// between the empty line under the header and the options' lines, with an
/// empty line of its own behind it; otherwise the options' lines follow the
/// empty line under the header at once.
pub proof fn lemma_notice_iff_mandatory(a: ArgsView)
    ensures
        ({
            let mandatory = exists|i: int|
                0 <= i < a.opts.len() && (#[trigger] a.opts[i]).takes_mandatory_argument();
            &&& mandatory ==> a.text() == a.header() + a.newline + a.mandatory_notice + a.newline
                + a.newline + a.option_lines()
            &&& !mandatory && a.opts.len() > 0 ==> a.text() == a.header() + a.newline
                + a.option_lines()
            &&& !mandatory && a.opts.len() == 0 ==> a.text() == a.header()
        }),
{
}

/// An option without a short name has spaces in place of the short field,
/// as many as the short prefix is wide and one more: its line is the two
/// leading spaces, those spaces, and then what follows the short field in
/// any line.
pub proof fn lemma_absent_short_is_padding(
    o: OptView,
    short_opt: Seq<char>,
    long_opt: Seq<char>,
    newline: Seq<char>,
    column_width: nat,
)
    requires
        o.short is None,
    ensures
        o.short_field(short_opt) == spaces(grapheme_count(short_opt) + 1),
        o.line(short_opt, long_opt, newline, column_width) == spaces(2) + spaces(
            grapheme_count(short_opt) + 1,
        ) + o.connective() + o.long_field(long_opt) + o.doc_field(column_width) + newline,
        !o.comma_printed(),
{
}

} // verus!
