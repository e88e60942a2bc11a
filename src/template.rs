use vstd::prelude::*;

verus! {

/// The texts of a sequence of strings.
pub open spec fn texts(v: Seq<String>) -> Seq<Seq<char>> {
    v.map_values(|s: String| s@)
}

/// A message template with its arguments filled in, as `format!` fills a
/// template of plain `{}` placeholders: each `{}` takes the next argument,
/// `{{` and `}}` stand for `{` and `}`, and every other character stays. A
/// `{}` left without an argument stays as it is.
pub open spec fn filled(t: Seq<char>, args: Seq<Seq<char>>) -> Seq<char>
    decreases t.len(),
{
    if t.len() == 0 {
        Seq::empty()
    } else if t.len() >= 2 && t[0] == '{' && t[1] == '}' && args.len() > 0 {
        args[0] + filled(t.skip(2), args.skip(1))
    } else if t.len() >= 2 && t[0] == '{' && t[1] == '{' {
        seq!['{'] + filled(t.skip(2), args)
    } else if t.len() >= 2 && t[0] == '}' && t[1] == '}' {
        seq!['}'] + filled(t.skip(2), args)
    } else {
        seq![t[0]] + filled(t.skip(1), args)
    }
}

/// Fills `template` with the first `n` of `args`.
pub fn fill_template(template: &str, args: &Vec<String>, n: usize) -> (r: String)
    requires
        n <= args@.len(),
    ensures
        r@ == filled(template@, texts(args@).take(n as int)),
{
    let ghost all = texts(args@).take(n as int);
    let len = template.unicode_len();
    let mut out = String::new();
    let mut i: usize = 0;
    let mut k: usize = 0;
    proof {
        assert(template@.skip(0) =~= template@);
        assert(all.skip(0) =~= all);
        assert(out@ + filled(template@, all) =~= filled(template@, all));
    }
    while i < len
        invariant
            len == template@.len(),
            i <= len,
            k <= n,
            n <= args@.len(),
            all == texts(args@).take(n as int),
            out@ + filled(template@.skip(i as int), all.skip(k as int)) == filled(template@, all),
        decreases len - i,
    {
        let ghost rest = template@.skip(i as int);
        let ghost left = all.skip(k as int);
        let c = template.get_char(i);
        let two = i + 1 < len;
        let d = if two { template.get_char(i + 1) } else { ' ' };
        proof {
            assert(rest[0] == c);
            if two {
                assert(rest[1] == d);
                assert(rest.skip(2) =~= template@.skip(i + 2));
            }
            assert(rest.skip(1) =~= template@.skip(i + 1));
        }
        if two && c == '{' && d == '}' && k < n {
            let arg = args[k].as_str();
            proof {
                assert(left[0] == arg@);
                assert(left.skip(1) =~= all.skip(k + 1));
                assert(out@ + arg@ + filled(template@.skip(i + 2), all.skip(k + 1)) == out@ + filled(rest, left));
            }
            out.append(arg);
            i = i + 2;
            k = k + 1;
        } else if two && c == '{' && d == '{' {
            proof {
                reveal_strlit("{");
                assert(out@ + "{"@ + filled(template@.skip(i + 2), left) == out@ + filled(rest, left));
            }
            out.append("{");
            i = i + 2;
        } else if two && c == '}' && d == '}' {
            proof {
                reveal_strlit("}");
                assert(out@ + "}"@ + filled(template@.skip(i + 2), left) == out@ + filled(rest, left));
            }
            out.append("}");
            i = i + 2;
        } else {
            let piece = template.substring_char(i, i + 1);
            proof {
                assert(piece@ =~= seq![c]);
                assert(out@ + piece@ + filled(template@.skip(i + 1), left) == out@ + filled(rest, left));
            }
            out.append(piece);
            i = i + 1;
        }
    }
    proof {
        assert(template@.skip(len as int) =~= Seq::<char>::empty());
    }
    out
}

} // verus!
