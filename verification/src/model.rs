use vstd::prelude::*;

use crate::errors::IronSSGError;
use crate::text::dec_int;
use crate::text::int_to_string;
use crate::text::json_quote;
use crate::text::json_quoted;

verus! {

/// The view of a list of model entries: each key and each value as the JSON
/// text it holds, in order.
pub open spec fn entries_view(v: Seq<(String, String)>) -> Seq<(Seq<char>, Seq<char>)> {
    v.map_values(|p: (String, String)| (p.0@, p.1@))
}

/// What parsing a page model document yields: `None` when the text is not
/// valid JSON; otherwise the top-level object's entries in order, each value
/// written back out as JSON text.  A valid document that is not an object
/// yields no entries.  The result depends on the text alone.
pub uninterp spec fn parsed_model(s: Seq<char>) -> Option<Seq<(Seq<char>, Seq<char>)>>;

/// Relies on `json::parse` to read the document and `json::JsonValue::dump`
/// to write each top-level value back out as JSON text.  A document that is
/// not valid JSON is rejected; a valid document that is not an object
/// contributes no entries, as the json crate's index assignment replaces a
/// non-object with a fresh object before the metadata is attached.
#[verifier::external_body]
pub(crate) fn parse_model_object(text: &str) -> (r: Result<Vec<(String, String)>, IronSSGError>)
    ensures
        match r {
            Ok(v) => parsed_model(text@) == Some(entries_view(v@)),
            Err(e) => parsed_model(text@) is None && e matches IronSSGError::InvalidModel(_),
        },
{
    match json::parse(text) {
        Ok(json::JsonValue::Object(obj)) => {
            let mut v: Vec<(String, String)> = Vec::new();
            for (k, val) in obj.iter() {
                v.push((k.to_string(), val.dump()));
            }
            Ok(v)
        },
        Ok(_) => Ok(Vec::new()),
        Err(e) => Err(IronSSGError::InvalidModel(e.to_string())),
    }
}

/// The JSON text of the computed per-page metadata object, in the order the
/// fields are attached: title, description, author, year.
pub open spec fn metadata_text(
    title: Seq<char>,
    description: Seq<char>,
    author: Seq<char>,
    year: int,
) -> Seq<char> {
    "{\"title\":"@ + json_quoted(title) + ",\"description\":"@ + json_quoted(description)
        + ",\"author\":"@ + json_quoted(author) + ",\"year\":"@ + dec_int(year) + "}"@
}

/// Writes the metadata object for one page as JSON text.
pub fn build_metadata_text(title: &str, description: &str, author: &str, year: i32) -> (r: String)
    ensures
        r@ == metadata_text(title@, description@, author@, year as int),
{
    let mut out = String::from_str("{\"title\":");
    out.append(json_quote(title).as_str());
    out.append(",\"description\":");
    out.append(json_quote(description).as_str());
    out.append(",\"author\":");
    out.append(json_quote(author).as_str());
    out.append(",\"year\":");
    out.append(int_to_string(year).as_str());
    out.append("}");
    out
}

/// `es` with the entry for `k` set to `v`: the first entry whose key is `k`
/// is replaced in place, and when no entry has that key one is appended.
/// The last writer wins; an entry already present under `k` is overwritten,
/// not merged.
pub open spec fn set_key(
    es: Seq<(Seq<char>, Seq<char>)>,
    k: Seq<char>,
    v: Seq<char>,
) -> Seq<(Seq<char>, Seq<char>)>
    decreases es.len(),
{
    if es.len() == 0 {
        seq![(k, v)]
    } else if es[0].0 == k {
        seq![(k, v)] + es.drop_first()
    } else {
        seq![es[0]] + set_key(es.drop_first(), k, v)
    }
}

/// Attaches the metadata object to a model: sets the `metadata` key to
/// `meta`, overwriting any entry already present under that key.
pub fn with_metadata(entries: Vec<(String, String)>, meta: String) -> (r: Vec<(String, String)>)
    ensures
        entries_view(r@) == set_key(entries_view(entries@), "metadata"@, meta@),
{
    let key = String::from_str("metadata");
    let ghost mk: Seq<char> = "metadata"@;
    let ghost full = entries_view(entries@);
    let mut out: Vec<(String, String)> = Vec::new();
    let mut done = false;
    let mut i: usize = 0;
    proof {
        assert(full.subrange(0, full.len() as int) =~= full);
        assert(entries_view(out@) =~= Seq::<(Seq<char>, Seq<char>)>::empty());
        assert(Seq::<(Seq<char>, Seq<char>)>::empty() + set_key(full, mk, meta@) =~= set_key(
            full,
            mk,
            meta@,
        ));
    }
    while i < entries.len()
        invariant
            i <= entries@.len(),
            key@ == mk,
            full == entries_view(entries@),
            done ==> set_key(full, mk, meta@) == entries_view(out@) + full.subrange(
                i as int,
                full.len() as int,
            ),
            !done ==> set_key(full, mk, meta@) == entries_view(out@) + set_key(
                full.subrange(i as int, full.len() as int),
                mk,
                meta@,
            ),
        decreases entries@.len() - i,
    {
        let e = &entries[i];
        proof {
            let tail = full.subrange(i as int, full.len() as int);
            assert(tail[0] == full[i as int]);
            assert(full[i as int] == (entries@[i as int].0@, entries@[i as int].1@));
            assert(tail.drop_first() =~= full.subrange(i + 1, full.len() as int));
        }
        if !done && e.0 == key {
            out.push((key.clone(), meta.clone()));
            done = true;
            proof {
                let tail = full.subrange(i as int, full.len() as int);
                assert(set_key(tail, mk, meta@) == seq![(mk, meta@)] + tail.drop_first());
                assert(entries_view(out@) =~= entries_view(out@.drop_last()) + seq![
                    (mk, meta@),
                ]);
                assert(entries_view(out@.drop_last()) + (seq![(mk, meta@)] + tail.drop_first())
                    =~= entries_view(out@) + full.subrange(i + 1, full.len() as int));
            }
        } else {
            out.push((e.0.clone(), e.1.clone()));
            proof {
                let tail = full.subrange(i as int, full.len() as int);
                assert(entries_view(out@) =~= entries_view(out@.drop_last()) + seq![
                    full[i as int],
                ]);
                if done {
                    assert(entries_view(out@.drop_last()) + (seq![tail[0]] + tail.drop_first())
                        =~= entries_view(out@) + full.subrange(i + 1, full.len() as int));
                    assert(seq![tail[0]] + tail.drop_first() =~= tail);
                } else {
                    assert(tail[0].0 != mk);
                    assert(set_key(tail, mk, meta@) == seq![tail[0]] + set_key(
                        tail.drop_first(),
                        mk,
                        meta@,
                    ));
                    assert(entries_view(out@.drop_last()) + (seq![tail[0]] + set_key(
                        tail.drop_first(),
                        mk,
                        meta@,
                    )) =~= entries_view(out@) + set_key(
                        full.subrange(i + 1, full.len() as int),
                        mk,
                        meta@,
                    ));
                }
            }
        }
        i = i + 1;
    }
    proof {
        assert(full.subrange(full.len() as int, full.len() as int) =~= Seq::<
            (Seq<char>, Seq<char>),
        >::empty());
    }
    if !done {
        out.push((key.clone(), meta.clone()));
        proof {
            assert(set_key(Seq::<(Seq<char>, Seq<char>)>::empty(), mk, meta@) == seq![
                (mk, meta@),
            ]);
            assert(entries_view(out@) =~= entries_view(out@.drop_last()) + seq![(mk, meta@)]);
        }
    } else {
        proof {
            assert(entries_view(out@) + Seq::<(Seq<char>, Seq<char>)>::empty() =~= entries_view(
                out@,
            ));
        }
    }
    out
}

/// The JSON text of one object entry: the quoted key, a colon, the value.
pub open spec fn entry_text(k: Seq<char>, v: Seq<char>) -> Seq<char> {
    json_quoted(k) + seq![':'] + v
}

/// The JSON text of a list of object entries, comma-separated.
pub open spec fn entries_text(es: Seq<(Seq<char>, Seq<char>)>) -> Seq<char>
    decreases es.len(),
{
    if es.len() == 0 {
        Seq::empty()
    } else if es.len() == 1 {
        entry_text(es[0].0, es[0].1)
    } else {
        entry_text(es[0].0, es[0].1) + seq![','] + entries_text(es.drop_first())
    }
}

/// The JSON text of a whole model object.
pub open spec fn object_text(es: Seq<(Seq<char>, Seq<char>)>) -> Seq<char> {
    seq!['{'] + entries_text(es) + seq!['}']
}

fn entries_text_from(entries: &Vec<(String, String)>, i: usize, out: &mut String)
    requires
        i <= entries@.len(),
    ensures
        final(out)@ == old(out)@ + entries_text(
            entries_view(entries@).subrange(i as int, entries@.len() as int),
        ),
    decreases entries@.len() - i,
{
    let ghost full = entries_view(entries@);
    if i < entries.len() {
        let e = &entries[i];
        proof {
            let tail = full.subrange(i as int, full.len() as int);
            assert(tail[0] == full[i as int]);
            assert(full[i as int] == (entries@[i as int].0@, entries@[i as int].1@));
        }
        out.append(json_quote(e.0.as_str()).as_str());
        out.push(':');
        out.append(e.1.as_str());
        if i + 1 < entries.len() {
            out.push(',');
            entries_text_from(entries, i + 1, out);
            proof {
                let tail = full.subrange(i as int, full.len() as int);
                assert(tail.drop_first() =~= full.subrange(i + 1, full.len() as int));
                assert(tail.len() >= 2);
                assert(final(out)@ =~= old(out)@ + entries_text(tail));
            }
        } else {
            proof {
                let tail = full.subrange(i as int, full.len() as int);
                assert(tail.len() == 1);
                assert(final(out)@ =~= old(out)@ + entries_text(tail));
            }
        }
    } else {
        proof {
            assert(full.subrange(i as int, full.len() as int) =~= Seq::<
                (Seq<char>, Seq<char>),
            >::empty());
            assert(final(out)@ =~= old(out)@ + entries_text(
                full.subrange(i as int, full.len() as int),
            ));
        }
    }
}

/// Writes a whole model as JSON object text.
pub fn model_text(entries: &Vec<(String, String)>) -> (r: String)
    ensures
        r@ == object_text(entries_view(entries@)),
{
    let mut out = String::new();
    out.push('{');
    entries_text_from(entries, 0, &mut out);
    out.push('}');
    proof {
        let full = entries_view(entries@);
        assert(full.subrange(0, full.len() as int) =~= full);
        assert(out@ =~= object_text(full));
    }
    out
}

} // verus!
