use vstd::prelude::*;
use vstd::string::*;

use crate::commands::watch::{WatchError, WatchSession};
use crate::context::Context;
use crate::pairs::{has_name, is_last, lemma_value_at_last, value_of};
use crate::services::ServiceKind;

verus! {

/// The names of a list of variables, in the list's order.
pub open spec fn names_of(vars: Seq<(Seq<char>, Seq<char>)>) -> Seq<Seq<char>> {
    vars.map_values(|var: (Seq<char>, Seq<char>)| var.0)
}

/// The list of names `own` after the candidates have been offered to it one
/// by one: a candidate joins at the end unless a service owns it or the list
/// holds it already.
pub open spec fn extended(
    own: Seq<Seq<char>>,
    candidates: Seq<Seq<char>>,
    service_vars: Seq<(Seq<char>, Seq<char>)>,
) -> Seq<Seq<char>>
    decreases candidates.len(),
{
    if candidates.len() == 0 {
        own
    } else {
        let earlier = extended(own, candidates.drop_last(), service_vars);
        let name = candidates.last();
        if has_name(service_vars, name) || earlier.contains(name) {
            earlier
        } else {
            earlier.push(name)
        }
    }
}

/// The names of the variables that belong to the application: those it
/// declares and those found in its environment file, without the ones that
/// a service owns, each once.
pub open spec fn own_names(
    declared: Seq<Seq<char>>,
    existing: Seq<(Seq<char>, Seq<char>)>,
    service_vars: Seq<(Seq<char>, Seq<char>)>,
) -> Seq<Seq<char>> {
    extended(Seq::empty(), declared + names_of(existing), service_vars)
}

/// The value that the application's variable `name` keeps: the one the
/// environment file gave it, or the empty string.
pub open spec fn own_value(existing: Seq<(Seq<char>, Seq<char>)>, name: Seq<char>) -> Seq<char> {
    match value_of(existing, name) {
        Some(value) => value,
        None => Seq::empty(),
    }
}

/// The application's section of the environment file.
pub open spec fn own_env_vars(
    declared: Seq<Seq<char>>,
    existing: Seq<(Seq<char>, Seq<char>)>,
    service_vars: Seq<(Seq<char>, Seq<char>)>,
) -> Seq<(Seq<char>, Seq<char>)> {
    own_names(declared, existing, service_vars).map_values(
        |name: Seq<char>| (name, own_value(existing, name)),
    )
}

/// One variable as a line of the environment file.
pub open spec fn env_line(var: (Seq<char>, Seq<char>)) -> Seq<char> {
    var.0 + seq!['='] + var.1 + seq!['\n']
}

/// A list of variables as lines, one after the other.
pub open spec fn env_lines(vars: Seq<(Seq<char>, Seq<char>)>) -> Seq<char>
    decreases vars.len(),
{
    if vars.len() == 0 {
        Seq::empty()
    } else {
        env_lines(vars.drop_last()) + env_line(vars.last())
    }
}

/// The lines between the two sections: a blank one and two comments.
pub open spec fn section_banner() -> Seq<char> {
    "\n# Your own variables come after this line\n"@ + "# Feel free to modify them as you want\n"@
}

/// The text of an environment file: the services' section, the banner, the
/// application's section.
pub open spec fn env_file_text(
    service_vars: Seq<(Seq<char>, Seq<char>)>,
    own_vars: Seq<(Seq<char>, Seq<char>)>,
) -> Seq<char> {
    env_lines(service_vars) + section_banner() + env_lines(own_vars)
}

/// The pairs among what a reading of an environment file gave, in order. A
/// line that could not be read stands as `None` and is passed over.
pub open spec fn accepted(entries: Seq<Option<(Seq<char>, Seq<char>)>>) -> Seq<
    (Seq<char>, Seq<char>),
>
    decreases entries.len(),
{
    if entries.len() == 0 {
        Seq::empty()
    } else {
        match entries.last() {
            Some(pair) => accepted(entries.drop_last()).push(pair),
            None => accepted(entries.drop_last()),
        }
    }
}

/// Reads the text of an environment file with `dotenvy::from_read_iter` and
/// gathers what its iterator yields, item by item: the pair of a line that
/// dotenvy accepts, `None` for a line it rejects. dotenvy replaces `$NAME`
/// in a value by what the process environment holds, so nothing is claimed
/// of the pairs.
#[verifier::external_body]
fn read_env_entries(text: &[u8]) -> (entries: Vec<Option<(String, String)>>) {
    let mut entries = Vec::new();
    for item in dotenvy::from_read_iter(text) {
        entries.push(item.ok());
    }
    entries
}

/// Keeps the pairs of a reading and drops what could not be read.
pub fn accepted_entries(entries: &Vec<Option<(String, String)>>) -> (vars: Vec<(String, String)>)
    ensures
        vars.deep_view() == accepted(entries.deep_view()),
{
    let mut vars: Vec<(String, String)> = Vec::new();
    let mut i: usize = 0;
    assert(vars.deep_view() =~= accepted(entries.deep_view().take(0)));
    while i < entries.len()
        invariant
            i <= entries.len(),
            vars.deep_view() == accepted(entries.deep_view().take(i as int)),
        decreases entries.len() - i,
    {
        proof {
            let upto = entries.deep_view().take(i + 1);
            assert(upto.drop_last() =~= entries.deep_view().take(i as int));
            assert(upto.last() == entries[i as int].deep_view());
        }
        let ghost before = vars.deep_view();
        if let Some(pair) = &entries[i] {
            vars.push((pair.0.clone(), pair.1.clone()));
            assert(vars.deep_view() =~= before.push((pair.0@, pair.1@)));
        }
        i += 1;
    }
    assert(entries.deep_view().take(entries.len() as int) =~= entries.deep_view());
    vars
}

/// The variables of the environment file whose text is given, in the file's
/// order, or `None` where there is no file. Malformed lines are skipped.
pub fn get_existing_env(env_file: Option<&[u8]>) -> (existing: Option<Vec<(String, String)>>)
    ensures
        existing is Some == env_file is Some,
{
    match env_file {
        Some(text) => {
            let entries = read_env_entries(text);
            Some(accepted_entries(&entries))
        },
        None => None,
    }
}

fn is_bound(vars: &Vec<(String, String)>, name: &String) -> (bound: bool)
    ensures
        bound == has_name(vars.deep_view(), name@),
{
    let mut i: usize = 0;
    while i < vars.len()
        invariant
            i <= vars.len(),
            forall|j: int| 0 <= j < i ==> (#[trigger] vars.deep_view()[j]).0 != name@,
        decreases vars.len() - i,
    {
        if vars[i].0 == *name {
            assert(vars.deep_view()[i as int].0 == name@);
            return true;
        }
        i += 1;
    }
    false
}

fn holds_name(names: &Vec<String>, name: &String) -> (held: bool)
    ensures
        held == names.deep_view().contains(name@),
{
    let mut i: usize = 0;
    while i < names.len()
        invariant
            i <= names.len(),
            forall|j: int| 0 <= j < i ==> #[trigger] names.deep_view()[j] != name@,
        decreases names.len() - i,
    {
        if names[i] == *name {
            assert(names.deep_view()[i as int] == name@);
            return true;
        }
        i += 1;
    }
    false
}

fn find_value<'a>(vars: &'a Vec<(String, String)>, name: &String) -> (value: Option<&'a String>)
    ensures
        value is Some == value_of(vars.deep_view(), name@) is Some,
        value matches Some(v) ==> value_of(vars.deep_view(), name@) == Some(v@),
{
    let mut i: usize = vars.len();
    while i > 0
        invariant
            i <= vars.len(),
            forall|j: int| i <= j < vars.len() ==> (#[trigger] vars.deep_view()[j]).0 != name@,
        decreases i,
    {
        i -= 1;
        if vars[i].0 == *name {
            proof {
                assert(is_last(vars.deep_view(), name@, i as int));
                lemma_value_at_last(vars.deep_view(), name@, i as int);
            }
            return Some(&vars[i].1);
        }
    }
    None
}

fn offer_names(own: &mut Vec<String>, candidates: &Vec<String>, service_vars: &Vec<(String, String)>)
    ensures
        final(own).deep_view() == extended(
            old(own).deep_view(),
            candidates.deep_view(),
            service_vars.deep_view(),
        ),
{
    let mut i: usize = 0;
    assert(candidates.deep_view().take(0) =~= Seq::empty());
    while i < candidates.len()
        invariant
            i <= candidates.len(),
            own.deep_view() == extended(
                old(own).deep_view(),
                candidates.deep_view().take(i as int),
                service_vars.deep_view(),
            ),
        decreases candidates.len() - i,
    {
        proof {
            let upto = candidates.deep_view().take(i + 1);
            assert(upto.drop_last() =~= candidates.deep_view().take(i as int));
            assert(upto.last() == candidates[i as int]@);
        }
        let name = &candidates[i];
        let ghost before = own.deep_view();
        if !is_bound(service_vars, name) && !holds_name(own, name) {
            own.push(name.clone());
            assert(own.deep_view() =~= before.push(name@));
        }
        i += 1;
    }
    assert(candidates.deep_view().take(candidates.len() as int) =~= candidates.deep_view());
}

fn names(vars: &Vec<(String, String)>) -> (names: Vec<String>)
    ensures
        names.deep_view() == names_of(vars.deep_view()),
{
    let mut names: Vec<String> = Vec::new();
    let mut i: usize = 0;
    while i < vars.len()
        invariant
            i <= vars.len(),
            names.deep_view() == names_of(vars.deep_view()).take(i as int),
        decreases vars.len() - i,
    {
        let ghost before = names.deep_view();
        names.push(vars[i].0.clone());
        assert(names.deep_view() =~= before.push(vars[i as int].0@));
        i += 1;
        assert(names.deep_view() =~= names_of(vars.deep_view()).take(i as int));
    }
    assert(names.deep_view() =~= names_of(vars.deep_view()));
    names
}

/// Computes the application's section: the names it declares, then those of
/// its environment file, without the names that a service owns, each once
/// and with the value the file gave it last.
pub fn own_variables(
    declared: &Vec<String>,
    existing: &Vec<(String, String)>,
    services_env_vars: &Vec<(String, String)>,
) -> (own: Vec<(String, String)>)
    ensures
        own.deep_view() == own_env_vars(
            declared.deep_view(),
            existing.deep_view(),
            services_env_vars.deep_view(),
        ),
{
    let mut kept: Vec<String> = Vec::new();
    assert(kept.deep_view() =~= Seq::<Seq<char>>::empty());
    offer_names(&mut kept, declared, services_env_vars);
    let existing_names = names(existing);
    offer_names(&mut kept, &existing_names, services_env_vars);
    proof {
        lemma_extended_in_two(
            Seq::empty(),
            declared.deep_view(),
            names_of(existing.deep_view()),
            services_env_vars.deep_view(),
        );
    }
    let mut own: Vec<(String, String)> = Vec::new();
    let mut i: usize = 0;
    let ghost target = own_env_vars(
        declared.deep_view(),
        existing.deep_view(),
        services_env_vars.deep_view(),
    );
    while i < kept.len()
        invariant
            i <= kept.len(),
            target.len() == kept.len(),
            target == kept.deep_view().map_values(
                |name: Seq<char>| (name, own_value(existing.deep_view(), name)),
            ),
            own.deep_view() == target.take(i as int),
        decreases kept.len() - i,
    {
        let name = &kept[i];
        let value = match find_value(existing, name) {
            Some(value) => value.clone(),
            None => String::new(),
        };
        let ghost before = own.deep_view();
        own.push((name.clone(), value));
        assert(own.deep_view() =~= before.push((name@, value@)));
        i += 1;
        assert(own.deep_view() =~= target.take(i as int));
    }
    assert(target.take(target.len() as int) =~= target);
    own
}

/// What one generation of the environment file gives.
#[derive(Clone, Debug)]
pub struct GeneratedEnv {
    /// The application's section.
    pub own_env_vars: Vec<(String, String)>,
    /// The text to put in the place of the environment file.
    pub text: String,
    /// Whether no environment file was there before.
    pub is_generated_first_time: bool,
}

/// The variables that an absent environment file stands for: none.
pub open spec fn existing_or_none(existing_env: Option<Vec<(String, String)>>) -> Seq<
    (Seq<char>, Seq<char>),
> {
    match existing_env {
        Some(existing) => existing.deep_view(),
        None => Seq::empty(),
    }
}

/// Merges the variables that the services export, the names that the
/// application declares and the variables of the environment file as it
/// was, and writes the new file's text. The services' variables come first
/// and always with the values given here; the application keeps every other
/// name, with the value it had.
pub fn materialize_env(
    services_env_vars: &Vec<(String, String)>,
    declared: &Vec<String>,
    existing_env: Option<Vec<(String, String)>>,
) -> (generated: GeneratedEnv)
    ensures
        generated.is_generated_first_time == existing_env is None,
        generated.own_env_vars.deep_view() == own_env_vars(
            declared.deep_view(),
            existing_or_none(existing_env),
            services_env_vars.deep_view(),
        ),
        generated.text@ == env_file_text(
            services_env_vars.deep_view(),
            generated.own_env_vars.deep_view(),
        ),
{
    let is_generated_first_time = existing_env.is_none();
    let existing = match existing_env {
        Some(existing) => existing,
        None => Vec::new(),
    };
    assert(existing.deep_view() =~= existing_or_none(existing_env));
    let own_env_vars = own_variables(declared, &existing, services_env_vars);
    let text = generate_env_file(services_env_vars, &own_env_vars);
    GeneratedEnv { own_env_vars, text, is_generated_first_time }
}

/// Generates the environment file of the application of `context` from the
/// variables that its services export and from the file as it is: `env_file`
/// holds the file's bytes, or `None` where there is no file to read.
///
/// The file is read by dotenvy, so the contract says what holds whatever
/// dotenvy made of it; `materialize_env` says what is generated from each
/// reading.
pub fn generate_env(
    services_env_vars: &Vec<(String, String)>,
    context: &Context,
    env_file: Option<&[u8]>,
) -> (generated: GeneratedEnv)
    ensures
        generated.is_generated_first_time == env_file is None,
        generated.text@ == env_file_text(
            services_env_vars.deep_view(),
            generated.own_env_vars.deep_view(),
        ),
        exists|existing: Seq<(Seq<char>, Seq<char>)>|
            generated.own_env_vars.deep_view() == #[trigger] own_env_vars(
                context.app_config().spec_env(context.override_context()),
                existing,
                services_env_vars.deep_view(),
            ),
        env_file is None ==> generated.own_env_vars.deep_view() == own_env_vars(
            context.app_config().spec_env(context.override_context()),
            Seq::empty(),
            services_env_vars.deep_view(),
        ),
{
    let existing_env = get_existing_env(env_file);
    let declared = context.app_config().env(context.override_context());
    materialize_env(services_env_vars, declared, existing_env)
}

/// Offering two lists of candidates in turn is offering them joined.
pub proof fn lemma_extended_in_two(
    own: Seq<Seq<char>>,
    first: Seq<Seq<char>>,
    second: Seq<Seq<char>>,
    service_vars: Seq<(Seq<char>, Seq<char>)>,
)
    ensures
        extended(own, first + second, service_vars) == extended(
            extended(own, first, service_vars),
            second,
            service_vars,
        ),
    decreases second.len(),
{
    if second.len() == 0 {
        assert(first + second =~= first);
    } else {
        lemma_extended_in_two(own, first, second.drop_last(), service_vars);
        assert((first + second).drop_last() =~= first + second.drop_last());
        assert((first + second).last() == second.last());
    }
}

/// Writes the services' variables, the banner and the application's
/// variables as the text of an environment file.
pub fn generate_env_file(
    services_env_vars: &Vec<(String, String)>,
    own_env_vars: &Vec<(String, String)>,
) -> (text: String)
    ensures
        text@ == env_file_text(services_env_vars.deep_view(), own_env_vars.deep_view()),
{
    let mut text = String::new();
    write_lines(&mut text, services_env_vars);
    text.append("\n# Your own variables come after this line\n");
    text.append("# Feel free to modify them as you want\n");
    write_lines(&mut text, own_env_vars);
    assert(text@ =~= env_file_text(services_env_vars.deep_view(), own_env_vars.deep_view()));
    text
}

fn write_lines(text: &mut String, vars: &Vec<(String, String)>)
    ensures
        final(text)@ == old(text)@ + env_lines(vars.deep_view()),
{
    let mut i: usize = 0;
    assert(text@ =~= old(text)@ + env_lines(vars.deep_view().take(0)));
    while i < vars.len()
        invariant
            i <= vars.len(),
            text@ == old(text)@ + env_lines(vars.deep_view().take(i as int)),
        decreases vars.len() - i,
    {
        proof {
            reveal_strlit("=");
            reveal_strlit("\n");
            let upto = vars.deep_view().take(i + 1);
            assert(upto.drop_last() =~= vars.deep_view().take(i as int));
            assert(upto.last() == (vars[i as int].0@, vars[i as int].1@));
        }
        text.append(vars[i].0.as_str());
        text.append("=");
        text.append(vars[i].1.as_str());
        text.append("\n");
        i += 1;
        assert(text@ =~= old(text)@ + env_lines(vars.deep_view().take(i as int)));
    }
    assert(vars.deep_view().take(vars.len() as int) =~= vars.deep_view());
}

/// A list that has grown by one item holds what it held and that item.
proof fn lemma_pushed_holds<A>(items: Seq<A>, last: A, item: A)
    ensures
        items.push(last).contains(item) <==> items.contains(item) || last == item,
{
    let grown = items.push(last);
    if items.contains(item) {
        let i = choose|i: int| 0 <= i < items.len() && items[i] == item;
        assert(grown[i] == item);
    }
    if last == item {
        assert(grown[items.len() as int] == item);
    }
}

/// A name is in the list after the offers exactly if it was in the list
/// before, or was offered and no service owns it.
pub proof fn lemma_extended_holds(
    own: Seq<Seq<char>>,
    candidates: Seq<Seq<char>>,
    service_vars: Seq<(Seq<char>, Seq<char>)>,
    name: Seq<char>,
)
    ensures
        extended(own, candidates, service_vars).contains(name) <==> own.contains(name) || (
        candidates.contains(name) && !has_name(service_vars, name)),
    decreases candidates.len(),
{
    if candidates.len() > 0 {
        let head = candidates.drop_last();
        let last = candidates.last();
        lemma_extended_holds(own, head, service_vars, name);
        lemma_pushed_holds(head, last, name);
        assert(head.push(last) =~= candidates);
        lemma_pushed_holds(extended(own, head, service_vars), last, name);
    }
}

/// The offers leave the list as it was and add to its end; what they add is
/// owned by no service; and a list without repetitions stays without.
pub proof fn lemma_extended_shape(
    own: Seq<Seq<char>>,
    candidates: Seq<Seq<char>>,
    service_vars: Seq<(Seq<char>, Seq<char>)>,
)
    ensures
        own.len() <= extended(own, candidates, service_vars).len(),
        extended(own, candidates, service_vars).take(own.len() as int) == own,
        forall|i: int|
            own.len() <= i < extended(own, candidates, service_vars).len() ==> !has_name(
                service_vars,
                #[trigger] extended(own, candidates, service_vars)[i],
            ),
        own.no_duplicates() ==> extended(own, candidates, service_vars).no_duplicates(),
    decreases candidates.len(),
{
    let after = extended(own, candidates, service_vars);
    if candidates.len() == 0 {
        assert(after.take(own.len() as int) =~= own);
    } else {
        let head = candidates.drop_last();
        let earlier = extended(own, head, service_vars);
        lemma_extended_shape(own, head, service_vars);
        assert(after.take(own.len() as int) =~= earlier.take(own.len() as int));
    }
}

/// Offers of names that a service owns, or that the list holds, change
/// nothing.
proof fn lemma_extended_skips(
    own: Seq<Seq<char>>,
    candidates: Seq<Seq<char>>,
    service_vars: Seq<(Seq<char>, Seq<char>)>,
)
    requires
        forall|i: int|
            0 <= i < candidates.len() ==> has_name(service_vars, #[trigger] candidates[i])
                || own.contains(candidates[i]),
    ensures
        extended(own, candidates, service_vars) == own,
    decreases candidates.len(),
{
    if candidates.len() > 0 {
        let head = candidates.drop_last();
        assert forall|i: int| 0 <= i < head.len() implies has_name(
            service_vars,
            #[trigger] head[i],
        ) || own.contains(head[i]) by {
            assert(head[i] == candidates[i]);
        }
        lemma_extended_skips(own, head, service_vars);
        assert(candidates.last() == candidates[candidates.len() - 1]);
    }
}

/// Offers of new names that no service owns are all taken, in order.
proof fn lemma_extended_appends(
    own: Seq<Seq<char>>,
    candidates: Seq<Seq<char>>,
    service_vars: Seq<(Seq<char>, Seq<char>)>,
)
    requires
        (own + candidates).no_duplicates(),
        forall|i: int|
            0 <= i < candidates.len() ==> !has_name(service_vars, #[trigger] candidates[i]),
    ensures
        extended(own, candidates, service_vars) == own + candidates,
    decreases candidates.len(),
{
    if candidates.len() == 0 {
        assert(own + candidates =~= own);
    } else {
        let head = candidates.drop_last();
        let last = candidates.last();
        let all = own + candidates;
        assert forall|i: int, j: int| 0 <= i < j < (own + head).len() implies (own + head)[i] != (
        own + head)[j] by {
            assert((own + head)[i] == all[i]);
            assert((own + head)[j] == all[j]);
        }
        assert forall|i: int| 0 <= i < head.len() implies !has_name(
            service_vars,
            #[trigger] head[i],
        ) by {
            assert(head[i] == candidates[i]);
        }
        lemma_extended_appends(own, head, service_vars);
        assert(last == candidates[candidates.len() - 1]);
        if (own + head).contains(last) {
            let i = choose|i: int| 0 <= i < (own + head).len() && (own + head)[i] == last;
            assert(all[i] == last);
            assert(all[all.len() - 1] == last);
        }
        assert((own + head).push(last) =~= own + candidates);
    }
}

/// The application's section names no variable twice.
pub proof fn lemma_own_names_are_distinct(
    declared: Seq<Seq<char>>,
    existing: Seq<(Seq<char>, Seq<char>)>,
    service_vars: Seq<(Seq<char>, Seq<char>)>,
)
    ensures
        own_names(declared, existing, service_vars).no_duplicates(),
        crate::pairs::distinct_names(own_env_vars(declared, existing, service_vars)),
        names_of(own_env_vars(declared, existing, service_vars)) == own_names(
            declared,
            existing,
            service_vars,
        ),
{
    lemma_extended_shape(Seq::empty(), declared + names_of(existing), service_vars);
    assert(names_of(own_env_vars(declared, existing, service_vars)) =~= own_names(
        declared,
        existing,
        service_vars,
    ));
}

/// A variable is owned by a service or by the application, never by both:
/// a name that a service exports is not in the application's section,
/// whether the application declares it, the environment file held it, or
/// both.
pub proof fn lemma_service_owns_its_names(
    declared: Seq<Seq<char>>,
    existing: Seq<(Seq<char>, Seq<char>)>,
    service_vars: Seq<(Seq<char>, Seq<char>)>,
    name: Seq<char>,
)
    requires
        has_name(service_vars, name),
    ensures
        !has_name(own_env_vars(declared, existing, service_vars), name),
{
    let own = own_env_vars(declared, existing, service_vars);
    let kept = own_names(declared, existing, service_vars);
    if has_name(own, name) {
        let i = choose|i: int| 0 <= i < own.len() && (#[trigger] own[i]).0 == name;
        assert(kept[i] == name);
        lemma_extended_holds(Seq::empty(), declared + names_of(existing), service_vars, name);
    }
}

/// Every name that the application declares or that its environment file
/// held, and that no service exports, is in the application's section: with
/// the value the file gave it last, and with the empty value where the file
/// did not hold it.
pub proof fn lemma_own_variable_keeps_its_value(
    declared: Seq<Seq<char>>,
    existing: Seq<(Seq<char>, Seq<char>)>,
    service_vars: Seq<(Seq<char>, Seq<char>)>,
    name: Seq<char>,
)
    requires
        declared.contains(name) || has_name(existing, name),
        !has_name(service_vars, name),
    ensures
        own_env_vars(declared, existing, service_vars).contains((name, own_value(existing, name))),
        value_of(own_env_vars(declared, existing, service_vars), name) == Some(
            own_value(existing, name),
        ),
{
    let own = own_env_vars(declared, existing, service_vars);
    let kept = own_names(declared, existing, service_vars);
    let candidates = declared + names_of(existing);
    if declared.contains(name) {
        let i = choose|i: int| 0 <= i < declared.len() && declared[i] == name;
        assert(candidates[i] == name);
    } else {
        let i = choose|i: int| 0 <= i < existing.len() && (#[trigger] existing[i]).0 == name;
        assert(candidates[declared.len() + i] == name);
    }
    lemma_extended_holds(Seq::empty(), candidates, service_vars, name);
    let k = choose|k: int| 0 <= k < kept.len() && kept[k] == name;
    assert(own[k] == (name, own_value(existing, name)));
    lemma_own_names_are_distinct(declared, existing, service_vars);
    assert(is_last(own, name, k)) by {
        assert forall|j: int| k < j < own.len() implies (#[trigger] own[j]).0 != name by {
            assert(kept[j] != kept[k]);
        }
    }
    lemma_value_at_last(own, name, k);
}

/// The services' section of the file is made of the variables as the
/// services export them now, and of nothing that the file held before.
pub proof fn lemma_services_section_is_fresh(
    service_vars: Seq<(Seq<char>, Seq<char>)>,
    own_vars: Seq<(Seq<char>, Seq<char>)>,
)
    ensures
        ({
            let text = env_file_text(service_vars, own_vars);
            let section = env_lines(service_vars);
            &&& section.len() <= text.len()
            &&& text.subrange(0, section.len() as int) == section
        }),
{
    let text = env_file_text(service_vars, own_vars);
    let section = env_lines(service_vars);
    assert(text.subrange(0, section.len() as int) =~= section);
}

/// Generating again from what was generated changes nothing in the
/// application's section: with the declared names and the services'
/// variables unchanged, and with the file read back as the pairs that were
/// written, the section comes out as it was, names, order and values.
pub proof fn lemma_regeneration_is_stable(
    declared: Seq<Seq<char>>,
    existing: Seq<(Seq<char>, Seq<char>)>,
    service_vars: Seq<(Seq<char>, Seq<char>)>,
)
    ensures
        own_env_vars(
            declared,
            service_vars + own_env_vars(declared, existing, service_vars),
            service_vars,
        ) == own_env_vars(declared, existing, service_vars),
{
    let own = own_env_vars(declared, existing, service_vars);
    let kept = own_names(declared, existing, service_vars);
    let written = service_vars + own;
    let none = Seq::<Seq<char>>::empty();
    let from_declared = extended(none, declared, service_vars);
    lemma_own_names_are_distinct(declared, existing, service_vars);
    lemma_extended_in_two(none, declared, names_of(existing), service_vars);
    lemma_extended_shape(none, declared, service_vars);
    lemma_extended_shape(from_declared, names_of(existing), service_vars);
    let added = kept.skip(from_declared.len() as int);
    assert(kept =~= from_declared + added);
    assert(names_of(written) =~= names_of(service_vars) + kept);
    // the names come out as they were
    lemma_extended_in_two(none, declared, names_of(service_vars) + kept, service_vars);
    lemma_extended_in_two(from_declared, names_of(service_vars), kept, service_vars);
    assert forall|i: int| 0 <= i < names_of(service_vars).len() implies has_name(
        service_vars,
        #[trigger] names_of(service_vars)[i],
    ) || from_declared.contains(names_of(service_vars)[i]) by {
        assert(service_vars[i].0 == names_of(service_vars)[i]);
    }
    lemma_extended_skips(from_declared, names_of(service_vars), service_vars);
    lemma_extended_in_two(from_declared, from_declared, added, service_vars);
    assert forall|i: int| 0 <= i < from_declared.len() implies has_name(
        service_vars,
        #[trigger] from_declared[i],
    ) || from_declared.contains(from_declared[i]) by {}
    lemma_extended_skips(from_declared, from_declared, service_vars);
    assert forall|i: int| 0 <= i < added.len() implies !has_name(
        service_vars,
        #[trigger] added[i],
    ) by {
        assert(added[i] == kept[from_declared.len() + i]);
    }
    lemma_extended_appends(from_declared, added, service_vars);
    assert(own_names(declared, written, service_vars) == kept);
    // and so do the values
    assert forall|k: int| 0 <= k < kept.len() implies own_value(written, #[trigger] kept[k])
        == own_value(existing, kept[k]) by {
        let name = kept[k];
        let place = service_vars.len() + k;
        assert(written[place] == own[k]);
        assert(is_last(written, name, place)) by {
            assert forall|j: int| place < j < written.len() implies (#[trigger] written[j]).0
                != name by {
                assert(written[j] == own[j - service_vars.len()]);
                assert(kept[j - service_vars.len()] != kept[k]);
            }
        }
        lemma_value_at_last(written, name, place);
    }
    assert(own_env_vars(declared, written, service_vars) =~= own);
}

/// One step of a deployment.
#[derive(Clone, Copy, Debug, PartialEq, Eq, Structural)]
pub enum DeployStep {
    /// Load the environment file into the process. Whether that works out
    /// only decides which message is shown.
    LoadEnvFile,
    /// Generate the environment file anew.
    GenerateEnvFile,
    /// Make sure that the network shared by the containers is there.
    CreateNetwork,
    /// Reconcile the container of this dependency, with an image pulled
    /// from the registry.
    ReconcileDependency(ServiceKind),
    /// Reconcile the application's container, with an image built on the
    /// spot.
    ReconcileApp,
    /// Run what each service does once it is up, and wait for all of it.
    RunPostUp,
    /// Show where each exposed service can be reached.
    PrintConnectionInfo,
}

impl DeployStep {
    /// Whether the deployment ends when the step fails.
    pub open spec fn spec_is_fatal(&self) -> bool {
        *self != DeployStep::LoadEnvFile
    }

    #[verifier::when_used_as_spec(spec_is_fatal)]
    pub fn is_fatal(&self) -> (fatal: bool)
        ensures
            fatal == self.spec_is_fatal(),
    {
        !matches!(self, DeployStep::LoadEnvFile)
    }
}

/// The step, where the command calls for it.
pub open spec fn step_if(wanted: bool, step: DeployStep) -> Seq<DeployStep> {
    if wanted {
        seq![step]
    } else {
        Seq::empty()
    }
}

/// The reconciliations of the dependencies, one after the other in the
/// order given.
pub open spec fn dependency_steps(dependencies: Seq<ServiceKind>) -> Seq<DeployStep> {
    dependencies.map_values(|kind: ServiceKind| DeployStep::ReconcileDependency(kind))
}

/// The steps of one deployment, in the order in which they are taken. The
/// dependencies are those that the configuration declares, in its order,
/// and the proxy where the command runs one.
pub open spec fn deploy_steps(context: &Context, declared: Seq<ServiceKind>) -> Seq<DeployStep> {
    seq![DeployStep::LoadEnvFile] + step_if(
        context.should_generate_env_file(),
        DeployStep::GenerateEnvFile,
    ) + step_if(context.should_create_network(), DeployStep::CreateNetwork) + dependency_steps(
        context.spec_active_dependencies(declared),
    ) + step_if(context.should_create_app_service(), DeployStep::ReconcileApp)
        + seq![DeployStep::RunPostUp] + step_if(
        context.should_print_connection_info(),
        DeployStep::PrintConnectionInfo,
    )
}

/// Lays out the deployment of an instance whose configuration declares
/// those dependencies.
pub fn deploy_plan(context: &Context, declared: &Vec<ServiceKind>) -> (steps: Vec<DeployStep>)
    ensures
        steps@ == deploy_steps(context, declared@),
{
    let mut steps: Vec<DeployStep> = Vec::new();
    steps.push(DeployStep::LoadEnvFile);
    if context.should_generate_env_file() {
        steps.push(DeployStep::GenerateEnvFile);
    }
    if context.should_create_network() {
        steps.push(DeployStep::CreateNetwork);
    }
    let ghost head = steps@;
    assert(head =~= seq![DeployStep::LoadEnvFile] + step_if(
        context.should_generate_env_file(),
        DeployStep::GenerateEnvFile,
    ) + step_if(context.should_create_network(), DeployStep::CreateNetwork));
    let dependencies = context.active_dependencies(declared);
    let mut i: usize = 0;
    assert(steps@ =~= head + dependency_steps(dependencies@.take(0)));
    while i < dependencies.len()
        invariant
            i <= dependencies.len(),
            steps@ == head + dependency_steps(dependencies@.take(i as int)),
        decreases dependencies.len() - i,
    {
        steps.push(DeployStep::ReconcileDependency(dependencies[i]));
        i += 1;
        assert(steps@ =~= head + dependency_steps(dependencies@.take(i as int)));
    }
    assert(dependencies@.take(dependencies.len() as int) =~= dependencies@);
    if context.should_create_app_service() {
        steps.push(DeployStep::ReconcileApp);
    }
    steps.push(DeployStep::RunPostUp);
    if context.should_print_connection_info() {
        steps.push(DeployStep::PrintConnectionInfo);
    }
    assert(steps@ =~= deploy_steps(context, declared@));
    steps
}

/// Whether a deployment is under way, and how it ended if it is not.
#[derive(Clone, Copy, Debug, PartialEq, Eq, Structural)]
pub enum DeployStatus {
    InProgress,
    Finished,
    Aborted,
}

/// One attempt at deploying an instance: its steps, and how many of them
/// have been taken.
#[derive(Debug)]
pub struct Deployment {
    steps: Vec<DeployStep>,
    done: usize,
    aborted: bool,
}

pub struct DeploymentView {
    pub steps: Seq<DeployStep>,
    /// How many steps have been taken and have not ended the deployment.
    pub done: nat,
    pub status: DeployStatus,
}

impl View for Deployment {
    type V = DeploymentView;

    closed spec fn view(&self) -> DeploymentView {
        DeploymentView {
            steps: self.steps@,
            done: self.done as nat,
            status: if self.aborted {
                DeployStatus::Aborted
            } else if self.done == self.steps.len() {
                DeployStatus::Finished
            } else {
                DeployStatus::InProgress
            },
        }
    }
}

impl Deployment {
    #[verifier::type_invariant]
    spec fn well_formed(self) -> bool {
        self@.well_formed()
    }
}

impl DeploymentView {
    /// No more steps are done than there are; while the deployment is under
    /// way, one of its steps is still to be taken; and once it has
    /// finished, all of them are done.
    pub open spec fn well_formed(self) -> bool {
        &&& self.done <= self.steps.len()
        &&& self.status is InProgress ==> self.done < self.steps.len()
        &&& self.status is Finished ==> self.done == self.steps.len()
    }

    /// The step to take now.
    pub open spec fn current(self) -> Option<DeployStep> {
        if self.status is InProgress {
            Some(self.steps[self.done as int])
        } else {
            None
        }
    }

    /// The deployment after the current step has come out. A step that
    /// fails ends the whole deployment, unless it is one whose failure does
    /// not count; what was done before stays done.
    pub open spec fn completed(self, succeeded: bool) -> DeploymentView {
        match self.current() {
            None => self,
            Some(step) => if !succeeded && step.is_fatal() {
                DeploymentView { status: DeployStatus::Aborted, ..self }
            } else if self.done + 1 == self.steps.len() {
                DeploymentView { done: self.done + 1, status: DeployStatus::Finished, ..self }
            } else {
                DeploymentView { done: self.done + 1, ..self }
            },
        }
    }
}

/// Starts the deployment of the instance of `context`, whose configuration
/// declares those dependencies. The caller takes the current step, reports
/// how it came out, and goes on until no step is current.
pub fn deploy(context: &Context, declared: &Vec<ServiceKind>) -> (deployment: Deployment)
    ensures
        deployment@ == (DeploymentView {
            steps: deploy_steps(context, declared@),
            done: 0,
            status: DeployStatus::InProgress,
        }),
        deployment@.well_formed(),
{
    let steps = deploy_plan(context, declared);
    assert(steps@[0] == DeployStep::LoadEnvFile);
    Deployment { steps, done: 0, aborted: false }
}

/// Starts a watching session over `watch_paths`. It fails, before anything
/// is deployed, where there is no path to watch.
pub fn deploy_watch(watch_paths: &Vec<String>) -> (session: Result<WatchSession, WatchError>)
    ensures
        watch_paths.len() == 0 ==> session == Err::<WatchSession, WatchError>(
            WatchError::NoWatchPaths,
        ),
        watch_paths.len() > 0 ==> session is Ok && session->Ok_0@.phase is Deploying,
{
    WatchSession::begin(watch_paths)
}

impl Deployment {
    pub fn status(&self) -> (status: DeployStatus)
        ensures
            status == self@.status,
    {
        proof {
            use_type_invariant(self);
        }
        if self.aborted {
            DeployStatus::Aborted
        } else if self.done == self.steps.len() {
            DeployStatus::Finished
        } else {
            DeployStatus::InProgress
        }
    }

    /// The step to take now, or `None` once the deployment has ended.
    pub fn current(&self) -> (step: Option<DeployStep>)
        ensures
            step == self@.current(),
    {
        proof {
            use_type_invariant(self);
        }
        if !self.aborted && self.done < self.steps.len() {
            Some(self.steps[self.done])
        } else {
            None
        }
    }

    /// Reports how the current step came out.
    pub fn complete(&mut self, succeeded: bool)
        ensures
            final(self)@ == old(self)@.completed(succeeded),
            final(self)@.well_formed(),
    {
        proof {
            use_type_invariant(&*self);
        }
        match self.current() {
            None => {},
            Some(step) => {
                if !succeeded && step.is_fatal() {
                    self.aborted = true;
                } else {
                    assert(self.done < self.steps.len());
                    self.done = self.done + 1;
                }
            },
        }
    }
}

/// How many steps a deployment takes before it turns to the dependencies.
pub open spec fn steps_before_dependencies(context: &Context) -> int {
    1 + (if context.should_generate_env_file() {
        1int
    } else {
        0int
    }) + (if context.should_create_network() {
        1int
    } else {
        0int
    })
}

/// A deployment takes its steps in one order: the environment first, then
/// the network, then the dependencies as the configuration declares them
/// and the proxy after them, then the application, then what follows the
/// start.
pub proof fn lemma_deploy_order(context: &Context, declared: Seq<ServiceKind>)
    ensures
        ({
            let steps = deploy_steps(context, declared);
            let active = context.spec_active_dependencies(declared);
            let first = steps_before_dependencies(context);
            let after = first + active.len() + (if context.should_create_app_service() {
                1int
            } else {
                0int
            });
            &&& steps[0] == DeployStep::LoadEnvFile
            &&& context.should_generate_env_file() ==> steps[1] == DeployStep::GenerateEnvFile
            &&& context.should_create_network() ==> steps[first - 1] == DeployStep::CreateNetwork
            &&& forall|i: int|
                0 <= i < active.len() ==> #[trigger] steps[first + i]
                    == DeployStep::ReconcileDependency(active[i])
            &&& forall|i: int| 0 <= i < declared.len() ==> active[i] == declared[i]
            &&& context.should_create_proxy_service() ==> active.last() == ServiceKind::Proxy
            &&& context.should_create_app_service() ==> steps[first + active.len()]
                == DeployStep::ReconcileApp
            &&& steps[after] == DeployStep::RunPostUp
            &&& context.should_print_connection_info() ==> steps[after + 1]
                == DeployStep::PrintConnectionInfo
            &&& steps.len() == after + 1 + (if context.should_print_connection_info() {
                1int
            } else {
                0int
            })
        }),
{
}

/// A deployment stays well formed whatever is reported, never goes back,
/// and never changes its steps.
pub proof fn lemma_completed_is_well_formed(deployment: DeploymentView, succeeded: bool)
    requires
        deployment.well_formed(),
    ensures
        deployment.completed(succeeded).well_formed(),
        deployment.completed(succeeded).steps == deployment.steps,
        deployment.completed(succeeded).done >= deployment.done,
        deployment.completed(succeeded).status is Finished ==> deployment.completed(
            succeeded,
        ).done == deployment.steps.len(),
{
}

/// The first step that fails, unless its failure does not count, ends the
/// deployment: no step is current after it, and no report changes that.
pub proof fn lemma_failure_aborts_deployment(deployment: DeploymentView, later: bool)
    requires
        deployment.current() matches Some(step) && step.is_fatal(),
    ensures
        deployment.completed(false).status is Aborted,
        deployment.completed(false).done == deployment.done,
        deployment.completed(false).current() is None,
        deployment.completed(false).completed(later) == deployment.completed(false),
{
}

} // verus!
