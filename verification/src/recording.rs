use vstd::prelude::*;

verus! {

/// Strings joined with a separator between each two of them.
pub open spec fn joined(parts: Seq<Seq<char>>, separator: Seq<char>) -> Seq<char>
    decreases parts.len(),
{
    if parts.len() == 0 {
        Seq::empty()
    } else if parts.len() == 1 {
        parts[0]
    } else {
        joined(parts.drop_last(), separator) + separator + parts.last()
    }
}

/// The titles of the work parts that a track plays, in the track's order.
pub open spec fn chosen_titles(part_titles: Seq<String>, work_parts: Seq<usize>) -> Seq<Seq<char>> {
    work_parts.map_values(|part: usize| part_titles[part as int]@)
}

/// Whether every work part that a track names is a part of the work.
pub open spec fn parts_exist(part_titles: Seq<String>, work_parts: Seq<usize>) -> bool {
    forall|i: int| 0 <= i < work_parts.len() ==> #[trigger] work_parts[i] < part_titles.len()
}

/// The title of a track's row: the titles of the parts it plays, separated by
/// commas, or the given fallback where it plays no known part.
pub open spec fn track_title_of(
    part_titles: Seq<String>,
    work_parts: Seq<usize>,
    unknown: Seq<char>,
) -> Seq<char> {
    if work_parts.len() == 0 {
        unknown
    } else {
        joined(chosen_titles(part_titles, work_parts), ", "@)
    }
}

/// Join the titles of the work parts that a track plays, in the track's
/// order, with ", " between each two of them.
pub fn join_part_titles(part_titles: &Vec<String>, work_parts: &Vec<usize>) -> (title: String)
    requires
        parts_exist(part_titles@, work_parts@),
    ensures
        title@ == joined(chosen_titles(part_titles@, work_parts@), ", "@),
{
    let mut title = String::new();
    let mut i: usize = 0;
    while i < work_parts.len()
        invariant
            0 <= i <= work_parts.len(),
            parts_exist(part_titles@, work_parts@),
            title@ == joined(chosen_titles(part_titles@, work_parts@.take(i as int)), ", "@),
        decreases work_parts.len() - i,
    {
        let part = work_parts[i];
        assert(part < part_titles.len());
        let ghost before = chosen_titles(part_titles@, work_parts@.take(i as int));
        let ghost after = chosen_titles(part_titles@, work_parts@.take(i + 1));
        assert(after =~= before.push(part_titles@[part as int]@));
        assert(after.drop_last() =~= before);
        if i > 0 {
            title.append(", ");
        }
        title.append(part_titles[part].as_str());
        i = i + 1;
    }
    assert(work_parts@.take(work_parts.len() as int) =~= work_parts@);
    title
}

/// The title that a recording screen shows on a track's row: the titles of
/// the parts it plays, separated by commas, or `unknown` (the translation of
/// "Unknown") where it plays none. Every part that the track names must be a
/// part of the work.
pub fn track_title(part_titles: &Vec<String>, work_parts: &Vec<usize>, unknown: &str) -> (title:
    String)
    requires
        parts_exist(part_titles@, work_parts@),
    ensures
        title@ == track_title_of(part_titles@, work_parts@, unknown@),
        work_parts.len() == 0 ==> title@ == unknown@,
        work_parts.len() > 0 ==> title@ == joined(chosen_titles(part_titles@, work_parts@), ", "@),
{
    if work_parts.len() == 0 {
        String::from_str(unknown)
    } else {
        join_part_titles(part_titles, work_parts)
    }
}

/// A single string is joined to itself, with no separator, and no strings
/// join to the empty string.
pub proof fn law_joined_single(part: Seq<char>, separator: Seq<char>)
    ensures
        joined(seq![part], separator) == part,
        joined(Seq::empty(), separator) == Seq::<char>::empty(),
{
}

/// Joining two non-empty runs of strings one after the other gives the
/// joins of the two runs with one separator between them. With
/// `law_joined_single`, this fixes the join of every non-empty run:
/// `p0 + sep + p1 + sep + ... + sep + pn`.
pub proof fn law_joined_concat(first: Seq<Seq<char>>, second: Seq<Seq<char>>, separator: Seq<char>)
    requires
        first.len() > 0,
        second.len() > 0,
    ensures
        joined(first + second, separator) == joined(first, separator) + separator + joined(
            second,
            separator,
        ),
    decreases second.len(),
{
    let all = first + second;
    if second.len() == 1 {
        assert(all.drop_last() =~= first);
        assert(all.last() == second[0]);
    } else {
        assert(all.drop_last() =~= first + second.drop_last());
        law_joined_concat(first, second.drop_last(), separator);
        assert(all.last() == second.last());
        assert(joined(all, separator) =~= joined(first, separator) + separator + joined(
            second,
            separator,
        ));
    }
}

/// The strings a track's title is made of are the titles of the parts it
/// names, one for each, in the track's order.
pub proof fn law_chosen_titles(part_titles: Seq<String>, work_parts: Seq<usize>)
    ensures
        chosen_titles(part_titles, work_parts).len() == work_parts.len(),
        forall|i: int|
            0 <= i < work_parts.len() ==> #[trigger] chosen_titles(part_titles, work_parts)[i]
                == part_titles[work_parts[i] as int]@,
{
}

/// A track's row title is the fallback exactly when the track names no part;
/// otherwise it is the titles of its parts in the track's order, joined with
/// ", ", and it starts with the title of the first part it names.
pub proof fn law_track_title(part_titles: Seq<String>, work_parts: Seq<usize>, unknown: Seq<char>)
    ensures
        work_parts.len() == 0 ==> track_title_of(part_titles, work_parts, unknown) == unknown,
        work_parts.len() > 0 ==> track_title_of(part_titles, work_parts, unknown) == joined(
            chosen_titles(part_titles, work_parts),
            ", "@,
        ),
        work_parts.len() > 0 ==> track_title_of(part_titles, work_parts, unknown).take(
            part_titles[work_parts[0] as int]@.len() as int,
        ) == part_titles[work_parts[0] as int]@,
{
    if work_parts.len() > 0 {
        let parts = chosen_titles(part_titles, work_parts);
        let head = seq![parts[0]];
        if parts.len() > 1 {
            assert(parts =~= head + parts.drop_first());
            law_joined_concat(head, parts.drop_first(), ", "@);
        }
        assert(joined(head, ", "@) == parts[0]);
        assert(joined(parts, ", "@).take(parts[0].len() as int) =~= parts[0]);
    }
}

} // verus!
