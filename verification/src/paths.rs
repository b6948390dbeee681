//! Where the tool's files are.
//!
//! A path is the bytes that the operating system knows it by, so that a home directory whose
//! name is not Unicode is no special case.

use crate::product::Product;
use vstd::prelude::*;

verus! {

/// The home directory that the variable `HOME` names: none where it is unset or empty.
pub open spec fn home_dir(var: Option<Vec<u8>>) -> Option<Seq<u8>> {
    match var {
        Some(dir) => if dir@.len() > 0 {
            Some(dir@)
        } else {
            None
        },
        None => None,
    }
}

/// A relative path below a directory, with one separator between the two.
pub open spec fn joined(dir: Seq<u8>, relative: Seq<u8>) -> Seq<u8> {
    if dir.len() > 0 && dir.last() != 0x2f {
        dir + seq![0x2fu8] + relative
    } else {
        dir + relative
    }
}

/// The bytes of a text, as it is encoded in UTF-8.
pub open spec fn text_bytes(text: Seq<char>) -> Seq<u8> {
    vstd::utf8::encode_utf8(text)
}

/// A file of the product's own directory, which is hidden.
pub open spec fn in_product_dir(name: Seq<char>, file: Seq<char>) -> Seq<char> {
    "."@ + name + file
}

/// The desktop application's configuration.
pub open spec fn in_desktop_dir(title: Seq<char>) -> Seq<char> {
    "Library/Application Support/"@ + title + "/config.json"@
}

/// Whether a result is the path `relative` below the home directory, or says that there is none.
pub open spec fn is_home_path(
    var: Option<Vec<u8>>,
    relative: Seq<u8>,
    r: Result<Vec<u8>, String>,
) -> bool {
    match home_dir(var) {
        Some(dir) => r matches Ok(path) && path@ == joined(dir, relative),
        None => r matches Err(e) && e@ == "HOME is not set"@,
    }
}

/// A file below the home directory is never the home directory itself, keeps its directory as a
/// prefix, and two different relative paths give two different files.
pub proof fn law_joined_paths(dir: Seq<u8>, first: Seq<u8>, second: Seq<u8>)
    ensures
        joined(dir, first).take(dir.len() as int) == dir,
        first.len() > 0 ==> joined(dir, first) != dir,
        joined(dir, first) == joined(dir, second) ==> first == second,
{
    let a = joined(dir, first);
    let b = joined(dir, second);
    let cut = if dir.len() > 0 && dir.last() != 0x2f {
        dir.len() + 1
    } else {
        dir.len()
    };
    assert(a.skip(cut as int) =~= first);
    assert(b.skip(cut as int) =~= second);
    if first.len() > 0 {
        assert(a.len() > dir.len());
    }
}

/// A path below a directory ends with the relative path, right behind a separator: the one that
/// the directory ends with, or one that is put between the two.
pub proof fn law_one_separator(dir: Seq<u8>, relative: Seq<u8>)
    ensures
        dir.is_prefix_of(joined(dir, relative)),
        relative.is_suffix_of(joined(dir, relative)),
        dir.len() > 0 && dir.last() == '/' as u8 ==> joined(dir, relative).len() == dir.len()
            + relative.len(),
        dir.len() > 0 && dir.last() != '/' as u8 ==> joined(dir, relative).len() == dir.len() + 1
            + relative.len() && joined(dir, relative)[dir.len() as int] == '/' as u8,
        dir.len() == 0 ==> joined(dir, relative) == relative,
{
    let path = joined(dir, relative);
    assert(path.take(dir.len() as int) =~= dir);
    assert(path.skip(path.len() - relative.len()) =~= relative);
    if dir.len() == 0 {
        assert(path =~= relative);
    }
}

/// There is a home directory exactly if the variable is set and not empty, and it is its value.
pub proof fn law_home_is_the_variable(var: Option<Vec<u8>>)
    ensures
        home_dir(var) is None <==> var is None || var->0@.len() == 0,
        home_dir(var) is Some ==> home_dir(var)->0 == var->0@,
{
}

/// A path below the home directory: there is one exactly if there is a home directory, and it is
/// that directory and the whole relative path.
pub proof fn law_home_path(var: Option<Vec<u8>>, relative: Seq<u8>, r: Result<Vec<u8>, String>)
    requires
        is_home_path(var, relative, r),
    ensures
        var is None || var->0@.len() == 0 ==> (r matches Err(e) && e@ == "HOME is not set"@),
        var is Some && var->0@.len() > 0 ==> {
            &&& r matches Ok(path)
            &&& var->0@.is_prefix_of(path@)
            &&& relative.is_suffix_of(path@)
            &&& path@.len() == var->0@.len() + relative.len() + if var->0@.last() == '/' as u8 {
                0int
            } else {
                1int
            }
        },
{
    if let Some(dir) = home_dir(var) {
        law_one_separator(dir, relative);
    }
}

/// The product's own directory is hidden and named after it; the file's name follows.
pub proof fn law_product_dir_is_hidden(name: Seq<char>, file: Seq<char>)
    ensures
        ({
            let path = in_product_dir(name, file);
            &&& path.len() == 1 + name.len() + file.len()
            &&& path[0] == '.'
            &&& path.subrange(1, 1 + name.len() as int) == name
            &&& path.skip(1 + name.len() as int) == file
        }),
{
    reveal_strlit(".");
    let path = in_product_dir(name, file);
    assert(path.subrange(1, 1 + name.len() as int) =~= name);
    assert(path.skip(1 + name.len() as int) =~= file);
}

/// The desktop application's configuration stands in the directory of its title.
pub proof fn law_desktop_dir_is_the_title(title: Seq<char>)
    ensures
        ({
            let path = in_desktop_dir(title);
            &&& path.len() == 28 + title.len() + 12
            &&& path.take(28) == "Library/Application Support/"@
            &&& path.subrange(28, 28 + title.len() as int) == title
            &&& path.skip(28 + title.len() as int) == "/config.json"@
        }),
{
    reveal_strlit("Library/Application Support/");
    reveal_strlit("/config.json");
    let path = in_desktop_dir(title);
    assert(path.take(28) =~= "Library/Application Support/"@);
    assert(path.subrange(28, 28 + title.len() as int) =~= title);
    assert(path.skip(28 + title.len() as int) =~= "/config.json"@);
}

/// The bytes of two different texts differ.
proof fn lemma_text_bytes_differ(first: Seq<char>, second: Seq<char>)
    requires
        first != second,
    ensures
        text_bytes(first) != text_bytes(second),
{
    vstd::utf8::encode_utf8_decode_utf8(first);
    vstd::utf8::encode_utf8_decode_utf8(second);
}

/// Two different relative paths give two different files.
proof fn lemma_files_differ(dir: Seq<u8>, first: Seq<char>, second: Seq<char>)
    requires
        first != second,
    ensures
        joined(dir, text_bytes(first)) != joined(dir, text_bytes(second)),
{
    lemma_text_bytes_differ(first, second);
    law_joined_paths(dir, text_bytes(first), text_bytes(second));
}

/// The token, the cache, the lock and the desktop application's configuration are four different
/// files, whatever the home directory and the product.
pub proof fn law_files_are_distinct(dir: Seq<u8>, product: Product)
    ensures
        ({
            let name = product.name@;
            let credentials = joined(dir, text_bytes(in_product_dir(name, "/.credentials.json"@)));
            let cache = joined(dir, text_bytes(in_product_dir(name, "/rate-limit-cache.json"@)));
            let lock = joined(dir, text_bytes(in_product_dir(name, "/rate-limit.lock"@)));
            let config = joined(dir, text_bytes(in_desktop_dir(product.title@)));
            &&& credentials != cache
            &&& credentials != lock
            &&& credentials != config
            &&& cache != lock
            &&& cache != config
            &&& lock != config
        }),
{
    reveal_strlit(".");
    reveal_strlit("/.credentials.json");
    reveal_strlit("/rate-limit-cache.json");
    reveal_strlit("/rate-limit.lock");
    reveal_strlit("Library/Application Support/");
    let credentials = in_product_dir(product.name@, "/.credentials.json"@);
    let cache = in_product_dir(product.name@, "/rate-limit-cache.json"@);
    let lock = in_product_dir(product.name@, "/rate-limit.lock"@);
    let config = in_desktop_dir(product.title@);
    assert(config[0] == 'L');
    assert(credentials[0] == '.' && cache[0] == '.' && lock[0] == '.');
    assert(credentials.len() != cache.len() && credentials.len() != lock.len());
    assert(cache.len() != lock.len());
    lemma_files_differ(dir, credentials, cache);
    lemma_files_differ(dir, credentials, lock);
    lemma_files_differ(dir, credentials, config);
    lemma_files_differ(dir, cache, lock);
    lemma_files_differ(dir, cache, config);
    lemma_files_differ(dir, lock, config);
}

/// The home directory, from the value of the variable `HOME`.
pub fn home(var: Option<Vec<u8>>) -> (r: Result<Vec<u8>, String>)
    ensures
        match home_dir(var) {
            Some(dir) => r matches Ok(path) && path@ == dir,
            None => r matches Err(e) && e@ == "HOME is not set"@,
        },
{
    match var {
        Some(dir) => if dir.len() > 0 {
            Ok(dir)
        } else {
            Err("HOME is not set".to_owned())
        },
        None => Err("HOME is not set".to_owned()),
    }
}

/// A relative path below the home directory.
fn below_home(var: Option<Vec<u8>>, relative: &str) -> (r: Result<Vec<u8>, String>)
    ensures
        is_home_path(var, text_bytes(relative@), r),
{
    let mut path: Vec<u8> = match home(var) {
        Ok(dir) => dir,
        Err(e) => {
            return Err(e);
        },
    };
    if path[path.len() - 1] != 0x2f {
        path.push(0x2f);
    }
    path.extend_from_slice(relative.as_bytes());
    assert(path@ == joined(home_dir(var)->0, text_bytes(relative@)));
    Ok(path)
}

/// A file of the product's own directory, below the home directory.
fn below_product_dir(product: &Product, home_var: Option<Vec<u8>>, file: &str) -> (r: Result<
    Vec<u8>,
    String,
>)
    ensures
        is_home_path(home_var, text_bytes(in_product_dir(product.name@, file@)), r),
{
    let mut relative: String = ".".to_owned();
    relative.append(product.name.as_str());
    relative.append(file);
    below_home(home_var, relative.as_str())
}

/// The file that holds the token.
pub fn credentials_path(product: &Product, home_var: Option<Vec<u8>>) -> (r: Result<Vec<u8>, String>)
    ensures
        is_home_path(
            home_var,
            text_bytes(in_product_dir(product.name@, "/.credentials.json"@)),
            r,
        ),
{
    below_product_dir(product, home_var, "/.credentials.json")
}

/// The file that holds the cached reply of the service.
pub fn cache_path(product: &Product, home_var: Option<Vec<u8>>) -> (r: Result<Vec<u8>, String>)
    ensures
        is_home_path(
            home_var,
            text_bytes(in_product_dir(product.name@, "/rate-limit-cache.json"@)),
            r,
        ),
{
    below_product_dir(product, home_var, "/rate-limit-cache.json")
}

/// The file whose lock keeps concurrent calls from asking the service at the same time.
pub fn lock_path(product: &Product, home_var: Option<Vec<u8>>) -> (r: Result<Vec<u8>, String>)
    ensures
        is_home_path(
            home_var,
            text_bytes(in_product_dir(product.name@, "/rate-limit.lock"@)),
            r,
        ),
{
    below_product_dir(product, home_var, "/rate-limit.lock")
}

/// The desktop application's configuration, which holds the encrypted token.
pub fn claude_config_path(product: &Product, home_var: Option<Vec<u8>>) -> (r: Result<
    Vec<u8>,
    String,
>)
    ensures
        is_home_path(home_var, text_bytes(in_desktop_dir(product.title@)), r),
{
    let mut relative: String = "Library/Application Support/".to_owned();
    relative.append(product.title.as_str());
    relative.append("/config.json");
    below_home(home_var, relative.as_str())
}

} // verus!
