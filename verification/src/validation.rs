//! What is wrong with a chain, line by line.

use crate::text::{concat2, concat3, debug_string};
use vstd::prelude::*;

verus! {

/// What validation asks about one transform of a chain.
pub struct Step {
    pub name: Seq<char>,
    pub terminating: bool,
    pub problems: Seq<Seq<char>>,
}

/// The line about a transform that is in the wrong place: a terminating one that is not the last
/// in its chain, or one that is the last and not terminating. `debug_name` is the name in quotes.
pub open spec fn misplaced_text(debug_name: Seq<char>, terminating: bool) -> Seq<char> {
    if terminating {
        "  Terminating transform "@ + debug_name
            + " is not last in chain. Terminating transform must be last in chain."@
    } else {
        "  Non-terminating transform "@ + debug_name
            + " is last in chain. Last transform must be terminating."@
    }
}

/// The lines, each pushed in by two spaces.
pub open spec fn indented(lines: Seq<Seq<char>>) -> Seq<Seq<char>> {
    lines.map_values(|line: Seq<char>| "  "@ + line)
}

/// The lines about one transform: that it is misplaced, if it is, then its own problems.
pub open spec fn step_errors(step: Step, last: bool) -> Seq<Seq<char>> {
    if last == step.terminating {
        indented(step.problems)
    } else {
        seq![misplaced_text(crate::text::debug_text(step.name), step.terminating)] + indented(
            step.problems,
        )
    }
}

/// The lines about each transform of a chain.
pub open spec fn errors_by_step(steps: Seq<Step>) -> Seq<Seq<Seq<char>>> {
    Seq::new(steps.len(), |i: int| step_errors(steps[i], i == steps.len() - 1))
}

/// The line that what is wrong with the chain `name` comes under.
pub open spec fn heading(name: Seq<char>) -> Seq<char> {
    name + " chain:"@
}

/// The lines about a whole chain: none if nothing is wrong with it.
pub open spec fn chain_errors(name: Seq<char>, steps: Seq<Step>) -> Seq<Seq<char>> {
    if steps.len() == 0 {
        seq![heading(name), "  Chain cannot be empty"@]
    } else {
        under_heading(name, errors_by_step(steps).flatten())
    }
}

/// The lines with the heading above them, if there are any.
pub open spec fn under_heading(name: Seq<char>, errors: Seq<Seq<char>>) -> Seq<Seq<char>> {
    if errors.len() == 0 {
        errors
    } else {
        seq![heading(name)] + errors
    }
}

/// Writes the line about a misplaced transform, given its name in quotes.
pub fn misplaced_line(debug_name: &str, terminating: bool) -> (line: String)
    ensures
        line@ == misplaced_text(debug_name@, terminating),
        terminating ==> line@ == "  Terminating transform "@ + debug_name@
            + " is not last in chain. Terminating transform must be last in chain."@,
        !terminating ==> line@ == "  Non-terminating transform "@ + debug_name@
            + " is last in chain. Last transform must be terminating."@,
{
    if terminating {
        concat3(
            "  Terminating transform ",
            debug_name,
            " is not last in chain. Terminating transform must be last in chain.",
        )
    } else {
        concat3(
            "  Non-terminating transform ",
            debug_name,
            " is last in chain. Last transform must be terminating.",
        )
    }
}

/// Writes the lines about a chain that is empty.
pub fn empty_chain_lines(name: &str) -> (errors: Vec<String>)
    ensures
        crate::text::lines(errors@) == chain_errors(name@, Seq::empty()),
        errors@.len() == 2,
        errors@[0]@ == name@ + " chain:"@,
        errors@[1]@ == "  Chain cannot be empty"@,
{
    let mut errors: Vec<String> = Vec::new();
    errors.push(concat2(name, " chain:"));
    errors.push("  Chain cannot be empty".to_owned());
    errors
}

/// Adds the lines about one transform to `errors`.
pub fn push_step_lines(
    errors: &mut Vec<String>,
    name: &str,
    terminating: bool,
    problems: &Vec<String>,
    last: bool,
)
    ensures
        crate::text::lines(final(errors)@) == crate::text::lines(old(errors)@) + step_errors(
            Step { name: name@, terminating, problems: crate::text::lines(problems@) },
            last,
        ),
        final(errors)@.len() == old(errors)@.len() + (if last != terminating {
            1int
        } else {
            0
        }) + problems@.len(),
        forall|k: int|
            0 <= k < old(errors)@.len() ==> (#[trigger] final(errors)@[k])@ == old(errors)@[k]@,
        !last && terminating ==> final(errors)@[old(errors)@.len() as int]@
            == "  Terminating transform "@ + crate::text::debug_text(name@)
            + " is not last in chain. Terminating transform must be last in chain."@,
        last && !terminating ==> final(errors)@[old(errors)@.len() as int]@
            == "  Non-terminating transform "@ + crate::text::debug_text(name@)
            + " is last in chain. Last transform must be terminating."@,
        forall|j: int|
            0 <= j < problems@.len() ==> final(errors)@[final(errors)@.len() - problems@.len()
                + j]@ == "  "@ + (#[trigger] problems@[j])@,
{
    let ghost step = Step { name: name@, terminating, problems: crate::text::lines(problems@) };
    let ghost before = crate::text::lines(errors@);
    if last != terminating {
        let debug_name = debug_string(name);
        errors.push(misplaced_line(debug_name.as_str(), terminating));
    }
    let ghost placed = crate::text::lines(errors@);
    let mut i: usize = 0;
    while i < problems.len()
        invariant
            i <= problems.len(),
            crate::text::lines(errors@) == placed + indented(crate::text::lines(problems@)).take(
                i as int,
            ),
        decreases problems.len() - i,
    {
        let ghost written = crate::text::lines(errors@);
        errors.push(concat2("  ", problems[i].as_str()));
        i += 1;
        assert(crate::text::lines(errors@) =~= written.push("  "@ + problems@[i - 1]@));
        assert(indented(crate::text::lines(problems@)).take(i as int) =~= indented(
            crate::text::lines(problems@),
        ).take(i - 1).push("  "@ + problems@[i - 1]@));
    }
    assert(crate::text::lines(errors@) =~= before + step_errors(step, last));
    proof {
        let written = crate::text::lines(errors@);
        assert forall|k: int| 0 <= k < old(errors)@.len() implies (#[trigger] errors@[k])@ == old(
            errors,
        )@[k]@ by {
            assert(written[k] == before[k]);
        }
        assert forall|j: int| 0 <= j < problems@.len() implies errors@[errors@.len()
            - problems@.len() + j]@ == "  "@ + (#[trigger] problems@[j])@ by {
            assert(written[placed.len() + j] == indented(step.problems)[j]);
        }
        if last != terminating {
            assert(written[before.len() as int] == step_errors(step, last)[0]);
        }
    }
}

/// Puts the heading above the lines, if there are any.
pub fn put_heading(name: &str, errors: &mut Vec<String>)
    ensures
        crate::text::lines(final(errors)@) == under_heading(
            name@,
            crate::text::lines(old(errors)@),
        ),
        old(errors)@.len() == 0 ==> final(errors)@.len() == 0,
        old(errors)@.len() > 0 ==> final(errors)@.len() == old(errors)@.len() + 1
            && final(errors)@[0]@ == name@ + " chain:"@,
        forall|k: int|
            0 <= k < old(errors)@.len() ==> final(errors)@[k + 1]@ == (#[trigger] old(
                errors,
            )@[k])@,
{
    if !errors.is_empty() {
        errors.insert(0, concat2(name, " chain:"));
    }
}

/// The chain is valid: it has transforms, the last of them and no other is terminating, and none
/// of them has a problem of its own.
pub open spec fn valid(steps: Seq<Step>) -> bool {
    &&& steps.len() > 0
    &&& forall|i: int|
        0 <= i < steps.len() ==> {
            &&& (#[trigger] steps[i]).terminating == (i == steps.len() - 1)
            &&& steps[i].problems.len() == 0
        }
}

/// One of the parts holds `item`.
spec fn held<A>(parts: Seq<Seq<A>>, item: A) -> bool {
    exists|i: int, j: int|
        0 <= i < parts.len() && 0 <= j < parts[i].len() && #[trigger] parts[i][j] == item
}

/// Sequences put one after another hold just what they hold one by one.
proof fn lemma_flatten_holds<A>(parts: Seq<Seq<A>>, item: A)
    ensures
        parts.flatten().contains(item) <==> held(parts, item),
    decreases parts.len(),
{
    if parts.len() > 0 {
        let front = parts.drop_last();
        let last = parts.last();
        lemma_flatten_holds(front, item);
        front.lemma_flatten_push(last);
        assert(front.push(last) =~= parts);
        assert(parts.flatten() == front.flatten() + last);
        if held(parts, item) {
            let (i, j) = choose|i: int, j: int|
                0 <= i < parts.len() && 0 <= j < parts[i].len() && #[trigger] parts[i][j] == item;
            if i < front.len() {
                assert(front[i][j] == item);
                let k = choose|k: int| 0 <= k < front.flatten().len() && front.flatten()[k] == item;
                assert(parts.flatten()[k] == item);
            } else {
                assert(parts.flatten()[front.flatten().len() + j] == item);
            }
        }
        if parts.flatten().contains(item) {
            let k = choose|k: int| 0 <= k < parts.flatten().len() && parts.flatten()[k] == item;
            if k < front.flatten().len() {
                assert(front.flatten()[k] == item);
                let (i, j) = choose|i: int, j: int|
                    0 <= i < front.len() && 0 <= j < front[i].len() && #[trigger] front[i][j]
                        == item;
                assert(parts[i][j] == item);
            } else {
                assert(parts[parts.len() - 1][k - front.flatten().len()] == item);
            }
        }
    }
}

/// What stands at place `j` of part `i` comes, when the parts are put one after another, that many
/// places behind all that is in the parts before it.
proof fn lemma_flatten_place<A>(parts: Seq<Seq<A>>, i: int, j: int)
    requires
        0 <= i < parts.len(),
    ensures
        parts.take(i + 1).flatten().len() == parts.take(i).flatten().len() + parts[i].len(),
        parts.take(i + 1).flatten().len() <= parts.flatten().len(),
        0 <= j < parts[i].len() ==> parts.flatten()[parts.take(i).flatten().len() + j]
            == parts[i][j],
{
    let front = parts.take(i + 1);
    parts.take(i).lemma_flatten_push(parts[i]);
    assert(parts.take(i).push(parts[i]) =~= front);
    vstd::seq_lib::lemma_flatten_concat(front, parts.skip(i + 1));
    assert(front + parts.skip(i + 1) =~= parts);
    if 0 <= j < parts[i].len() {
        assert(front.flatten()[parts.take(i).flatten().len() + j] == parts[i][j]);
    }
}

/// A place among parts put one after another is a place in one of them.
proof fn lemma_flatten_found<A>(parts: Seq<Seq<A>>, k: int) -> (place: (int, int))
    requires
        0 <= k < parts.flatten().len(),
    ensures
        0 <= place.0 < parts.len(),
        0 <= place.1 < parts[place.0].len(),
        parts[place.0][place.1] == parts.flatten()[k],
{
    let item = parts.flatten()[k];
    lemma_flatten_holds(parts, item);
    assert(parts.flatten().contains(item));
    choose|i: int, j: int|
        0 <= i < parts.len() && 0 <= j < parts[i].len() && #[trigger] parts[i][j] == item
}

/// All that is said about a chain with transforms, and where. The lines about transform `i` begin
/// `starts[i]` lines below the heading: one that it is in the wrong place, if it terminates and is
/// not the last or is the last and does not terminate, and then one for each of its problems, and
/// nothing else. The heading with the name of the chain is there just when there is a line below it.
pub proof fn law_lines_stand_in_order(name: Seq<char>, steps: Seq<Step>) -> (starts: Seq<int>)
    requires
        steps.len() > 0,
    ensures
        starts.len() == steps.len() + 1,
        starts[0] == 0,
        forall|i: int, next: int|
            0 <= i < steps.len() && next == i + 1 ==> #[trigger] starts[next] == (
            #[trigger] starts[i]) + steps[i].problems.len() + (if steps[i].terminating != (i
                == steps.len() - 1) {
                1int
            } else {
                0
            }),
        chain_errors(name, steps).len() == (if starts.last() == 0 {
            0
        } else {
            starts.last() + 1
        }),
        starts.last() > 0 ==> chain_errors(name, steps)[0] == name + " chain:"@,
        forall|i: int|
            0 <= i < steps.len() - 1 && (#[trigger] steps[i]).terminating ==> chain_errors(
                name,
                steps,
            )[1 + starts[i]] == "  Terminating transform "@ + crate::text::debug_text(
                steps[i].name,
            ) + " is not last in chain. Terminating transform must be last in chain."@,
        !steps.last().terminating ==> chain_errors(name, steps)[1 + starts[steps.len() - 1]]
            == "  Non-terminating transform "@ + crate::text::debug_text(steps.last().name)
            + " is last in chain. Last transform must be terminating."@,
        forall|i: int, next: int, j: int|
            0 <= i < steps.len() && next == i + 1 && 0 <= j < steps[i].problems.len()
                ==> chain_errors(name, steps)[1 + #[trigger] starts[next] - steps[i].problems.len()
                + j] == "  "@ + #[trigger] steps[i].problems[j],
{
    let by_step = errors_by_step(steps);
    let starts = Seq::new(steps.len() + 1, |i: int| by_step.take(i).flatten().len() as int);
    assert(by_step.take(0).flatten().len() == 0);
    assert(by_step.take(steps.len() as int) =~= by_step);
    let errors = chain_errors(name, steps);
    assert forall|i: int, j: int|
        0 <= i < steps.len() && 0 <= j < by_step[i].len() implies #[trigger] by_step[i][j]
        == errors[1 + starts[i] + j] by {
        lemma_flatten_place(by_step, i, j);
    }
    assert forall|i: int, next: int| 0 <= i < steps.len() && next == i + 1 implies
        #[trigger] starts[next] == (#[trigger] starts[i]) + steps[i].problems.len() + (if steps[i].terminating
        != (i == steps.len() - 1) {
        1int
    } else {
        0
    }) by {
        lemma_flatten_place(by_step, i, 0);
    }
    assert forall|i: int| 0 <= i < steps.len() && steps[i].terminating != (i == steps.len() - 1)
        implies errors[1 + starts[i]] == misplaced_text(
        crate::text::debug_text((#[trigger] steps[i]).name),
        steps[i].terminating,
    ) by {
        assert(by_step[i][0] == errors[1 + starts[i] + 0]);
    }
    assert forall|i: int, next: int, j: int|
        0 <= i < steps.len() && next == i + 1 && 0 <= j < steps[i].problems.len() implies errors[1
        + #[trigger] starts[next] - steps[i].problems.len() + j] == "  "@
        + #[trigger] steps[i].problems[j] by {
        assert(starts[next] == starts[i] + by_step[i].len());
        let place = by_step[i].len() - steps[i].problems.len() + j;
        assert(by_step[i][place] == errors[1 + starts[i] + place]);
    }
    starts
}

/// Nothing is said about a chain but what is wrong with it: each line below the heading is a problem
/// of one of its transforms, or says of a transform that is not the last that it terminates, or of
/// the last that it does not, or says that there are no transforms at all.
pub proof fn law_only_what_is_wrong_is_reported(name: Seq<char>, steps: Seq<Step>, k: int)
    requires
        1 <= k < chain_errors(name, steps).len(),
    ensures
        ({
            ||| exists|i: int, j: int|
                0 <= i < steps.len() && 0 <= j < steps[i].problems.len() && chain_errors(
                    name,
                    steps,
                )[k] == "  "@ + #[trigger] steps[i].problems[j]
            ||| exists|i: int|
                0 <= i < steps.len() - 1 && (#[trigger] steps[i]).terminating && chain_errors(
                    name,
                    steps,
                )[k] == "  Terminating transform "@ + crate::text::debug_text(steps[i].name)
                    + " is not last in chain. Terminating transform must be last in chain."@
            ||| steps.len() > 0 && !steps.last().terminating && chain_errors(name, steps)[k]
                == "  Non-terminating transform "@ + crate::text::debug_text(steps.last().name)
                + " is last in chain. Last transform must be terminating."@
            ||| steps.len() == 0 && k == 1 && chain_errors(name, steps)[k]
                == "  Chain cannot be empty"@
        }),
{
    if steps.len() > 0 {
        let by_step = errors_by_step(steps);
        let (i, j) = lemma_flatten_found(by_step, k - 1);
        let extra = by_step[i].len() - steps[i].problems.len();
        if j >= extra {
            assert(by_step[i][j] == "  "@ + steps[i].problems[j - extra]);
        } else {
            assert(steps[i].terminating != (i == steps.len() - 1));
        }
    }
}

/// A chain without transforms is told that it cannot be empty, under its name, and nothing else.
pub proof fn law_empty_chain_is_reported(name: Seq<char>)
    ensures
        chain_errors(name, Seq::empty()).len() == 2,
        chain_errors(name, Seq::empty())[0] == name + " chain:"@,
        chain_errors(name, Seq::empty())[1] == "  Chain cannot be empty"@,
{
}

/// Validation finds nothing wrong with a chain just when the chain is valid: it has transforms, the
/// last of them terminates, no other does, and none of them has a problem of its own.
pub proof fn law_no_errors_iff_valid(name: Seq<char>, steps: Seq<Step>)
    ensures
        chain_errors(name, steps).len() == 0 <==> valid(steps),
        chain_errors(name, steps).len() == 0 <==> {
            &&& steps.len() > 0
            &&& steps.last().terminating
            &&& forall|i: int| 0 <= i < steps.len() - 1 ==> !(#[trigger] steps[i]).terminating
            &&& forall|i: int| 0 <= i < steps.len() ==> (#[trigger] steps[i]).problems.len() == 0
        },
{
    let by_step = errors_by_step(steps);
    let errors = by_step.flatten();
    if steps.len() > 0 && errors.len() > 0 {
        lemma_flatten_holds(by_step, errors[0]);
        assert(errors.contains(errors[0]));
        let (i, j) = choose|i: int, j: int|
            0 <= i < by_step.len() && 0 <= j < by_step[i].len() && #[trigger] by_step[i][j]
                == errors[0];
        assert(steps[i].terminating != (i == steps.len() - 1) || steps[i].problems.len() > 0);
    }
    if steps.len() > 0 && errors.len() == 0 {
        assert forall|i: int| 0 <= i < steps.len() implies (#[trigger] steps[i]).terminating == (i
            == steps.len() - 1) && steps[i].problems.len() == 0 by {
            if by_step[i].len() > 0 {
                lemma_flatten_holds(by_step, by_step[i][0]);
            }
        }
    }
}

/// What is wrong with a chain comes under a heading with its name, pushed in by two spaces, so that
/// what a chain says can stand below a transform of another chain.
pub proof fn law_errors_stand_under_heading(name: Seq<char>, steps: Seq<Step>, i: int)
    requires
        0 <= i < chain_errors(name, steps).len(),
    ensures
        chain_errors(name, steps).len() >= 2,
        chain_errors(name, steps)[0] == heading(name),
        chain_errors(name, steps)[0] == name + " chain:"@,
        i > 0 ==> "  "@.is_prefix_of(chain_errors(name, steps)[i]),
{
    reveal_strlit("  ");
    reveal_strlit("  Chain cannot be empty");
    reveal_strlit("  Terminating transform ");
    reveal_strlit("  Non-terminating transform ");
    let by_step = errors_by_step(steps);
    let errors = by_step.flatten();
    if steps.len() > 0 && i > 0 {
        lemma_flatten_holds(by_step, errors[i - 1]);
        let (step, line) = choose|step: int, line: int|
            0 <= step < by_step.len() && 0 <= line < by_step[step].len()
                && #[trigger] by_step[step][line] == errors[i - 1];
        assert("  "@ =~= by_step[step][line].subrange(0, 2));
    } else if i > 0 {
        assert("  "@ =~= "  Chain cannot be empty"@.subrange(0, 2));
    }
}

/// Nothing that is wrong is left out: each problem of each transform is reported, and so is each
/// transform that is in the wrong place.
pub proof fn law_every_problem_is_reported(name: Seq<char>, steps: Seq<Step>, i: int, j: int)
    requires
        0 <= i < steps.len(),
    ensures
        0 <= j < steps[i].problems.len() ==> chain_errors(name, steps).contains(
            "  "@ + steps[i].problems[j],
        ),
        steps[i].terminating != (i == steps.len() - 1) ==> chain_errors(name, steps).contains(
            misplaced_text(crate::text::debug_text(steps[i].name), steps[i].terminating),
        ),
{
    let by_step = errors_by_step(steps);
    let errors = by_step.flatten();
    let misplaced = steps[i].terminating != (i == steps.len() - 1);
    assert forall|line: Seq<char>| #[trigger] errors.contains(line) implies chain_errors(
        name,
        steps,
    ).contains(line) by {
        let k = choose|k: int| 0 <= k < errors.len() && errors[k] == line;
        assert(chain_errors(name, steps)[k + 1] == line);
    }
    if 0 <= j < steps[i].problems.len() {
        let k: int = if misplaced {
            j + 1
        } else {
            j
        };
        assert(by_step[i][k] == "  "@ + steps[i].problems[j]);
        lemma_flatten_holds(by_step, by_step[i][k]);
    }
    if misplaced {
        assert(by_step[i][0] == misplaced_text(
            crate::text::debug_text(steps[i].name),
            steps[i].terminating,
        ));
        lemma_flatten_holds(by_step, by_step[i][0]);
    }
}

} // verus!
