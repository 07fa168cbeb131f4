//! The Discord announcement of new codes: one embed per game, one field per code.

use vstd::prelude::*;
use crate::games::{spec_display_name, Game};
use crate::text::{append_str, join, lemma_join_push, string_of};

verus! {

/// A field of a Discord embed.
#[derive(Debug, Clone)]
pub struct EmbedField {
    pub name: String,
    pub value: String,
    pub inline: bool,
}

/// A Discord embed announcing codes: its title and fields. The time it is
/// sent at is added when it is sent.
#[derive(Debug, Clone)]
pub struct CodeEmbed {
    pub title: String,
    pub fields: Vec<EmbedField>,
}

/// The text of a code's field: its rewards joined with `", "` on a line of
/// their own when there are any, then its source.
pub open spec fn spec_field_value(rewards: Seq<String>, source: Seq<char>) -> Seq<char> {
    if rewards.len() == 0 {
        "Source: "@ + source
    } else {
        join(Seq::new(rewards.len(), |i: int| rewards[i]@), ", "@) + "\nSource: "@ + source
    }
}

/// Whether `f` is the field announcing `code` with `rewards` found at `source`.
pub open spec fn field_of(code: Seq<char>, rewards: Seq<String>, source: Seq<char>, f: EmbedField) -> bool {
    &&& f.name@ == "`"@ + code + "`"@
    &&& f.value@ == spec_field_value(rewards, source)
    &&& !f.inline
}

fn joined_rewards(rewards: &Vec<String>) -> (r: Vec<char>)
    ensures
        r@ == join(Seq::new(rewards@.len(), |i: int| rewards@[i]@), ", "@),
{
    let ghost parts = Seq::new(rewards@.len(), |i: int| rewards@[i]@);
    let mut v: Vec<char> = Vec::new();
    let mut i: usize = 0;
    while i < rewards.len()
        invariant
            i <= rewards@.len(),
            parts == Seq::new(rewards@.len(), |i: int| rewards@[i]@),
            v@ == join(parts.take(i as int), ", "@),
        decreases rewards@.len() - i,
    {
        if i > 0 {
            append_str(&mut v, ", ");
        }
        append_str(&mut v, rewards[i].as_str());
        proof {
            assert(parts.take(i + 1) =~= parts.take(i as int).push(parts[i as int]));
            if i > 0 {
                lemma_join_push(parts.take(i as int), ", "@, parts[i as int]);
            } else {
                assert(parts.take(1) =~= seq![parts[0]]);
            }
            assert(v@ =~= join(parts.take(i + 1), ", "@));
        }
        i = i + 1;
    }
    assert(parts.take(rewards@.len() as int) =~= parts);
    v
}

/// The field announcing one code.
pub fn code_field(code: &str, rewards: &Vec<String>, source: &str) -> (f: EmbedField)
    ensures
        field_of(code@, rewards@, source@, f),
{
    let mut name: Vec<char> = Vec::new();
    append_str(&mut name, "`");
    append_str(&mut name, code);
    append_str(&mut name, "`");
    let mut value: Vec<char> = Vec::new();
    if rewards.len() == 0 {
        append_str(&mut value, "Source: ");
        append_str(&mut value, source);
    } else {
        value = joined_rewards(rewards);
        append_str(&mut value, "\nSource: ");
        append_str(&mut value, source);
    }
    EmbedField { name: string_of(&name), value: string_of(&value), inline: false }
}

/// The title of a game's announcement.
pub open spec fn spec_embed_title(g: Game) -> Seq<char> {
    "New "@ + spec_display_name(g) + " Codes"@
}

/// The embed announcing `codes`, given as `(code, rewards, source)`, for a
/// game: one field per code, in order.
pub fn code_embed(game: Game, codes: &[(String, Vec<String>, String)]) -> (e: CodeEmbed)
    ensures
        e.title@ == spec_embed_title(game),
        e.fields@.len() == codes@.len(),
        forall|i: int| 0 <= i < codes@.len() ==> field_of(
            codes@[i].0@,
            codes@[i].1@,
            codes@[i].2@,
            #[trigger] e.fields@[i],
        ),
{
    let mut title: Vec<char> = Vec::new();
    append_str(&mut title, "New ");
    append_str(&mut title, game.display_name());
    append_str(&mut title, " Codes");
    let mut fields: Vec<EmbedField> = Vec::new();
    let mut i: usize = 0;
    while i < codes.len()
        invariant
            i <= codes@.len(),
            fields@.len() == i,
            forall|j: int| 0 <= j < i ==> field_of(codes@[j].0@, codes@[j].1@, codes@[j].2@, #[trigger] fields@[j]),
        decreases codes@.len() - i,
    {
        let f = code_field(codes[i].0.as_str(), &codes[i].1, codes[i].2.as_str());
        fields.push(f);
        i = i + 1;
    }
    CodeEmbed { title: string_of(&title), fields }
}

} // verus!
