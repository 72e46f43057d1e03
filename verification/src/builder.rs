//! The builder: how the objects of a project are laid out under the local build
//! directory before the project is compiled.
use vstd::prelude::*;
use crate::text::{join_with, join_with_slash, split_on, split_text, views, lemma_join_split,
    lemma_split_after_first, lemma_join_take_step};
use crate::files::storage::object_key;

verus! {

/// The local directory that a project is downloaded into (`build`).
pub open spec fn build_dir() -> Seq<char> {
    seq!['b', 'u', 'i', 'l', 'd']
}

/// A path inside the build directory.
pub open spec fn in_build_dir(relative: Seq<char>) -> Seq<char> {
    build_dir().push('/') + relative
}

/// The components of an object key after the leading project id.
pub open spec fn key_tail(key: Seq<char>) -> Seq<Seq<char>> {
    split_on(key, '/').drop_first()
}

/// The directories that hold a file, given the components of its path.
pub open spec fn parent_components(components: Seq<Seq<char>>) -> Seq<Seq<char>> {
    if components.len() == 0 {
        components
    } else {
        components.drop_last()
    }
}

/// Where a downloaded object goes: the directories to create, outermost first, and
/// the file's path relative to the build directory.
pub struct LocalFile {
    pub directories: Vec<String>,
    pub relative_path: String,
}

/// The local build directory's name.
pub fn build_dir_name() -> (name: String)
    ensures
        name@ == build_dir(),
{
    proof {
        reveal_strlit("build");
    }
    String::from_str("build")
}

/// Lays out an object key locally: the project id in front is dropped, the rest is
/// the file's relative path, and every component but the last is a directory.
pub fn local_file(key: &str) -> (file: LocalFile)
    ensures
        views(file.directories@) == parent_components(key_tail(key@)),
        file.relative_path@ == join_with(key_tail(key@), '/'),
        key_tail(key@).len() > 0 ==> views(file.directories@) == key_tail(key@).drop_last(),
        forall|k: int| 0 <= k < file.directories@.len() ==> !(#[trigger] file.directories@[k])@.contains('/'),
{
    proof {
        lemma_local_file_layout(key@);
    }
    let mut components = split_text(key, '/');
    proof {
        crate::text::lemma_split_nonempty(key@, '/');
    }
    let ghost all = components@;
    components.remove(0);
    assert(views(components@) =~= key_tail(key@)) by {
        assert(components@ =~= all.subrange(1, all.len() as int));
    }
    let relative_path = join_with_slash(&components);
    let ghost tail = components@;
    components.pop();
    assert(views(components@) =~= parent_components(key_tail(key@))) by {
        if tail.len() > 0 {
            assert(components@ =~= tail.drop_last());
        }
    }
    assert forall|k: int| 0 <= k < components@.len() implies !(#[trigger] components@[k])@.contains('/') by {
        assert(views(components@)[k] == components@[k]@);
        assert(parent_components(key_tail(key@))[k] == components@[k]@);
    }
    LocalFile { directories: components, relative_path }
}

/// The path of a file inside the build directory (`build/{relative}`).
pub fn build_path(relative: &str) -> (path: String)
    ensures
        path@ == in_build_dir(relative@),
{
    proof {
        reveal_strlit("/");
    }
    let mut path = build_dir_name();
    path.append("/");
    path.append(relative);
    path
}

/// The directories to make sure of, outermost first: the `k`-th is the build
/// directory followed by the first `k + 1` directory names.
pub fn directory_paths(directories: &Vec<String>) -> (paths: Vec<String>)
    ensures
        paths@.len() == directories@.len(),
        paths@.len() > 0 ==> paths@[0]@ == in_build_dir(directories@[0]@),
        forall|k: int| 0 < k < paths@.len() ==> #[trigger] paths@[k]@ == paths@[k - 1]@.push('/') + directories@[k]@,
        forall|k: int|
            0 <= k < paths@.len() ==> #[trigger] paths@[k]@ == in_build_dir(
                join_with(views(directories@).take(k + 1), '/'),
            ),
{
    let mut paths: Vec<String> = Vec::new();
    let mut current = build_dir_name();
    let n = directories.len();
    proof {
        reveal_strlit("/");
    }
    for i in 0..n
        invariant
            n == directories@.len(),
            "/"@ == seq!['/'],
            paths@.len() == i,
            i == 0 ==> current@ == build_dir(),
            i > 0 ==> current@ == in_build_dir(join_with(views(directories@).take(i as int), '/')),
            forall|k: int|
                0 <= k < i ==> #[trigger] paths@[k]@ == in_build_dir(
                    join_with(views(directories@).take(k + 1), '/'),
                ),
    {
        proof {
            lemma_join_take_step(views(directories@), i as int, '/');
        }
        current.append("/");
        current.append(directories[i].as_str());
        assert(current@ =~= in_build_dir(join_with(views(directories@).take(i + 1), '/')));
        paths.push(current.clone());
    }
    proof {
        assert forall|k: int| 0 < k < paths@.len() implies #[trigger] paths@[k]@ == paths@[k - 1]@.push('/')
            + directories@[k]@ by {
            lemma_join_take_step(views(directories@), k, '/');
            assert(views(directories@)[k] == directories@[k]@);
            assert(paths@[k]@ =~= paths@[k - 1]@.push('/') + directories@[k]@);
        }
        if paths@.len() > 0 {
            lemma_join_take_step(views(directories@), 0, '/');
            assert(views(directories@)[0] == directories@[0]@);
        }
    }
    paths
}

/// How a downloaded object is laid out: the components of its key after the project id
/// are the relative path; the directories are all of them but the last, one directory name
/// each (no name holds a `/`), outermost first; and the relative path is the directories
/// and the file's own name joined with `/`.
pub proof fn lemma_local_file_layout(key: Seq<char>)
    ensures
        forall|k: int|
            0 <= k < parent_components(key_tail(key)).len() ==> !(#[trigger] parent_components(key_tail(key))[k]).contains(
                '/',
            ),
        key_tail(key).len() > 0 ==> parent_components(key_tail(key)).len() + 1 == key_tail(key).len(),
        key_tail(key).len() > 0 ==> parent_components(key_tail(key)) == key_tail(key).drop_last(),
        key_tail(key).len() >= 2 ==> join_with(key_tail(key), '/') == join_with(parent_components(key_tail(key)), '/').push(
            '/',
        ) + key_tail(key).last(),
{
    let all = split_on(key, '/');
    crate::text::lemma_split_nonempty(key, '/');
    crate::text::lemma_split_pieces_without_sep(key, '/');
    let tail = key_tail(key);
    assert forall|k: int| 0 <= k < tail.len() implies !(#[trigger] tail[k]).contains('/') by {
        assert(tail[k] == all[k + 1]);
    }
    let parents = parent_components(tail);
    assert forall|k: int| 0 <= k < parents.len() implies !(#[trigger] parents[k]).contains('/') by {
        assert(parents[k] == tail[k]);
    }
    if tail.len() >= 2 {
        assert(join_with(tail, '/') == join_with(tail.drop_last(), '/').push('/') + tail.last());
    }
}

/// What a project file is stored under is what the builder writes back: for a project
/// id without `/`, the local path of the object `{project_id}/{file_name}` is the file name.
pub proof fn lemma_object_path_roundtrip(project_id: Seq<char>, file_name: Seq<char>)
    requires
        !project_id.contains('/'),
    ensures
        join_with(key_tail(object_key(project_id, file_name)), '/') == file_name,
{
    lemma_split_after_first(project_id, file_name, '/');
    assert((seq![project_id] + split_on(file_name, '/')).drop_first() =~= split_on(file_name, '/'));
    lemma_join_split(file_name, '/');
}

/// A file uploaded to a project comes back under its own name when the project is built:
/// project ids are UUID texts, which hold no `/`.
pub proof fn lemma_uploaded_file_keeps_its_name(project_id: Seq<char>, file_name: Seq<char>)
    requires
        crate::ids::is_uuid_text(project_id),
    ensures
        join_with(key_tail(object_key(project_id, file_name)), '/') == file_name,
{
    crate::ids::lemma_uuid_has_no_slash(project_id);
    lemma_object_path_roundtrip(project_id, file_name);
}

/// A file lands in the innermost directory that was made for it: when the relative path
/// has directories, the file's path is the last directory's path, a `/`, and the file's own
/// name. (The last of `directory_paths` is the build directory followed by all the
/// directory names joined.)
pub proof fn lemma_file_in_last_directory(components: Seq<Seq<char>>)
    requires
        components.len() >= 2,
    ensures
        in_build_dir(join_with(components, '/')) == in_build_dir(join_with(parent_components(components), '/')).push(
            '/',
        ) + components.last(),
        parent_components(components).take(parent_components(components).len() as int) == parent_components(
            components,
        ),
{
    let parents = parent_components(components);
    assert(parents.take(parents.len() as int) =~= parents);
    assert(in_build_dir(join_with(components, '/')) =~= in_build_dir(join_with(parents, '/')).push('/')
        + components.last());
}

} // verus!
