use vstd::prelude::*;
use vstd::string::*;
use crate::hir::Path;
use crate::intern::{Word, interned_text, word_text};
use crate::lower_error::{join_segments, segment_texts};
use crate::tenv::TEnv;
use crate::ty::{ConcreteKind, ConcreteView, KindView, TypeId, TypeKind, copy_words};

verus! {

/// The character of a decimal digit.
pub open spec fn digit(d: nat) -> char {
    if d == 0 {
        '0'
    } else if d == 1 {
        '1'
    } else if d == 2 {
        '2'
    } else if d == 3 {
        '3'
    } else if d == 4 {
        '4'
    } else if d == 5 {
        '5'
    } else if d == 6 {
        '6'
    } else if d == 7 {
        '7'
    } else if d == 8 {
        '8'
    } else {
        '9'
    }
}

/// A number written in decimal, without leading zeros.
pub open spec fn decimal(n: nat) -> Seq<char>
    decreases n,
{
    if n < 10 {
        seq![digit(n)]
    } else {
        decimal(n / 10).push(digit(n % 10))
    }
}

/// A handle as it is written: an apostrophe and its number.
pub open spec fn handle_text(id: TypeId) -> Seq<char> {
    seq!['\''] + decimal(id.0 as nat)
}

/// Handles written one after the other, with `separator` between them.
pub open spec fn handles_text(ids: Seq<TypeId>, separator: Seq<char>) -> Seq<char>
    decreases ids.len(),
{
    if ids.len() == 0 {
        Seq::empty()
    } else if ids.len() == 1 {
        handle_text(ids[0])
    } else {
        handles_text(ids.drop_last(), separator) + separator + handle_text(ids.last())
    }
}

/// The description of a type, with the names that `interner` holds.
///
/// An unknown type is `<unknown type>`, the bottom type `!`, a literal's
/// variable `int` or `float`, a type parameter its name. A named type is its
/// path, followed by its arguments between angle brackets where it has any;
/// a pointer is `*` and its target; a tuple is its elements between round
/// brackets. Handles nested in a type are written as handles.
pub open spec fn kind_text(interner: lasso::ThreadedRodeo, kind: KindView) -> Seq<char> {
    match kind {
        KindView::Unknown => seq!['<', 'u', 'n', 'k', 'n', 'o', 'w', 'n', ' ', 't', 'y', 'p', 'e', '>'],
        KindView::Never => seq!['!'],
        KindView::Generic(generic) => interned_text(interner, generic.name),
        KindView::Int(_) => seq!['i', 'n', 't'],
        KindView::Float(_) => seq!['f', 'l', 'o', 'a', 't'],
        KindView::Concrete(ConcreteView::Path(segments, args)) => {
            let path = join_segments(segment_texts(interner, segments));
            if args.len() == 0 {
                path
            } else {
                path + seq!['<'] + handles_text(args, seq![',']) + seq!['>']
            }
        },
        KindView::Concrete(ConcreteView::Ptr(to)) => seq!['*'] + handle_text(to),
        KindView::Concrete(ConcreteView::Tuple(types)) => seq!['('] + handles_text(
            types,
            seq![',', ' '],
        ) + seq![')'],
    }
}

/// Whether the description of a type holds a name.
pub open spec fn names_something(kind: KindView) -> bool {
    kind is Generic || kind matches KindView::Concrete(ConcreteView::Path(_, _))
}

fn digit_str(d: usize) -> (text: &'static str)
    requires
        d < 10,
    ensures
        text@ == seq![digit(d as nat)],
{
    proof {
        reveal_strlit("0");
        reveal_strlit("1");
        reveal_strlit("2");
        reveal_strlit("3");
        reveal_strlit("4");
        reveal_strlit("5");
        reveal_strlit("6");
        reveal_strlit("7");
        reveal_strlit("8");
        reveal_strlit("9");
    }
    let text = if d == 0 {
        "0"
    } else if d == 1 {
        "1"
    } else if d == 2 {
        "2"
    } else if d == 3 {
        "3"
    } else if d == 4 {
        "4"
    } else if d == 5 {
        "5"
    } else if d == 6 {
        "6"
    } else if d == 7 {
        "7"
    } else if d == 8 {
        "8"
    } else {
        "9"
    };
    assert(text@ =~= seq![digit(d as nat)]);
    text
}

/// Appends `n`, written in decimal, to `text`.
pub fn append_decimal(text: &mut String, n: usize)
    ensures
        final(text)@ == old(text)@ + decimal(n as nat),
    decreases n,
{
    if n >= 10 {
        append_decimal(text, n / 10);
    }
    let ghost before = text@;
    text.append(digit_str(n % 10));
    proof {
        if n >= 10 {
            assert(before + seq![digit((n % 10) as nat)] =~= old(text)@ + decimal(
                (n / 10) as nat,
            ).push(digit((n % 10) as nat)));
        }
    }
}

/// Appends the handle `id` to `text`.
pub fn append_handle(text: &mut String, id: TypeId)
    ensures
        final(text)@ == old(text)@ + handle_text(id),
{
    proof {
        reveal_strlit("'");
    }
    text.append("'");
    append_decimal(text, id.0);
    assert(text@ =~= old(text)@ + handle_text(id));
}

/// Appends the handles `ids` to `text`, with `separator` between them.
pub fn append_handles(text: &mut String, ids: &Vec<TypeId>, separator: &str)
    ensures
        final(text)@ == old(text)@ + handles_text(ids@, separator@),
{
    let mut i: usize = 0;
    assert(old(text)@ + handles_text(ids@.take(0), separator@) =~= old(text)@);
    while i < ids.len()
        invariant
            i <= ids.len(),
            text@ == old(text)@ + handles_text(ids@.take(i as int), separator@),
        decreases ids.len() - i,
    {
        let ghost before = text@;
        let ghost front = handles_text(ids@.take(i as int), separator@);
        assert(ids@.take(i + 1).drop_last() =~= ids@.take(i as int));
        assert(ids@.take(i + 1).last() == ids@[i as int]);
        if i > 0 {
            text.append(separator);
        }
        append_handle(text, ids[i]);
        proof {
            if i == 0 {
                assert(ids@.take(1)[0] == ids@[0]);
                assert(text@ =~= old(text)@ + handle_text(ids@[0]));
            } else {
                assert(text@ =~= old(text)@ + (front + separator@ + handle_text(ids@[i as int])));
            }
        }
        i += 1;
    }
    assert(ids@.take(ids.len() as int) =~= ids@);
}

/// The description of a type: see `kind_text`. `None` where `interner` does
/// not know a name that the description holds; a description without names
/// is always given.
pub fn describe_kind(kind: &TypeKind, interner: &lasso::ThreadedRodeo) -> (text: Option<String>)
    ensures
        text matches Some(written) ==> written@ == kind_text(*interner, kind@),
        !names_something(kind@) ==> text is Some,
{
    match kind {
        TypeKind::Unknown => {
            proof {
                reveal_strlit("<unknown type>");
            }
            let written = String::from_str("<unknown type>");
            assert(written@ =~= kind_text(*interner, kind@));
            Some(written)
        },
        TypeKind::Never => {
            proof {
                reveal_strlit("!");
            }
            let written = String::from_str("!");
            assert(written@ =~= kind_text(*interner, kind@));
            Some(written)
        },
        TypeKind::Generic(generic) => word_text(interner, generic.name),
        TypeKind::Int(_) => {
            proof {
                reveal_strlit("int");
            }
            let written = String::from_str("int");
            assert(written@ =~= kind_text(*interner, kind@));
            Some(written)
        },
        TypeKind::Float(_) => {
            proof {
                reveal_strlit("float");
            }
            let written = String::from_str("float");
            assert(written@ =~= kind_text(*interner, kind@));
            Some(written)
        },
        TypeKind::Concrete(ConcreteKind::Path(segments, args)) => {
            let path = Path { segments: copy_words(segments), generic_args: Vec::new() };
            let mut written = match path.to_string(interner) {
                Some(written) => written,
                None => {
                    return None;
                },
            };
            if args.len() > 0 {
                proof {
                    reveal_strlit("<");
                    reveal_strlit(",");
                    reveal_strlit(">");
                    assert("<"@ =~= seq!['<']);
                    assert(","@ =~= seq![',']);
                    assert(">"@ =~= seq!['>']);
                }
                let ghost name = written@;
                written.append("<");
                append_handles(&mut written, args, ",");
                written.append(">");
                assert(written@ =~= name + seq!['<'] + handles_text(args@, seq![',']) + seq!['>']);
            }
            Some(written)
        },
        TypeKind::Concrete(ConcreteKind::Ptr(to)) => {
            proof {
                reveal_strlit("*");
            }
            let mut written = String::from_str("*");
            append_handle(&mut written, *to);
            assert(written@ =~= kind_text(*interner, kind@));
            Some(written)
        },
        TypeKind::Concrete(ConcreteKind::Tuple(types)) => {
            proof {
                reveal_strlit("(");
                reveal_strlit(", ");
                reveal_strlit(")");
                assert("("@ =~= seq!['(']);
                assert(", "@ =~= seq![',', ' ']);
                assert(")"@ =~= seq![')']);
            }
            let mut written = String::from_str("(");
            append_handles(&mut written, types, ", ");
            written.append(")");
            assert(written@ =~= kind_text(*interner, kind@));
            Some(written)
        },
    }
}

impl TEnv {
    /// The description of the type that `id` resolves to: see `kind_text`.
    pub fn fmt_ty_id(&self, id: TypeId, interner: &lasso::ThreadedRodeo) -> (text: Option<String>)
        requires
            self@.has(id),
        ensures
            text matches Some(written) ==> written@ == kind_text(*interner, self@.kind(id)),
            !names_something(self@.kind(id)) ==> text is Some,
    {
        describe_kind(self.get(id), interner)
    }
}

} // verus!
