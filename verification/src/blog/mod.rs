//! Posts: the paged index, creating and editing.
use vstd::prelude::*;

use crate::database::database_model::{admin_rights_of, post_position, user_position, StateHandler};
use crate::user::user_model::{AuthenticatedUser, User};
use crate::stamp::{
    clock_reading, is_formattable, is_timestamp_text, is_v4_uuid_text, new_uuid_v4, since_epoch_text,
    unix_time_text, MAX_FORMATTED_SECS,
};
use crate::Status;

use self::post_model::Post;

pub mod model;
pub mod post_model;

verus! {

/// The form that creates a post.
#[derive(Debug, PartialEq, Eq)]
pub struct PostForm {
    pub title: String,
    pub content: String,
}

/// The form that edits the post with identifier `uuid`.
#[derive(Debug, PartialEq, Eq)]
pub struct PostEditForm {
    pub title: String,
    pub content: String,
    pub uuid: String,
}

/// How many posts one page of the index shows.
pub const ENTRIES_PER_PAGE: u32 = 5;

/// The number of posts that the index counts: the store's length taken as a `u32`.
pub open spec fn counted_posts(posts: Seq<Post>) -> int {
    (posts.len() as u32) as int
}

/// The posts on page `page` of the index: positions `5 * page` up to
/// `5 * page + 5`, as far as the store reaches.
pub open spec fn page_of(posts: Seq<Post>, page: int) -> Seq<Post> {
    let first = page * ENTRIES_PER_PAGE;
    let end = first + ENTRIES_PER_PAGE;
    let n = counted_posts(posts);
    if n <= first {
        Seq::empty()
    } else if n < end {
        posts.subrange(first, n)
    } else {
        posts.subrange(first, end)
    }
}

/// What the index shows for one page.
#[derive(Debug, PartialEq, Eq)]
pub struct PostIndex {
    pub posts: Vec<Post>,
    pub current_page: u32,
    pub total_pages: u32,
}

/// The page count that the index reports for `n_posts` posts.
pub fn total_pages(n_posts: usize) -> (pages: u32)
    ensures
        pages == ((n_posts + 1) as u32) / 2,
{
    let counted: u32 = n_posts as u32;
    let next: u32 = counted.wrapping_add(1);
    assert(next == ((n_posts + 1) as u32)) by (bit_vector)
        requires
            counted == n_posts as u32,
            next == (if counted == u32::MAX { 0u32 } else { (counted + 1) as u32 }),
    ;
    next / 2
}

/// Page `page` of the index, newest posts first.
pub fn index(page: u32, database: &StateHandler) -> (shown: PostIndex)
    requires
        page * ENTRIES_PER_PAGE + ENTRIES_PER_PAGE <= u32::MAX,
    ensures
        shown.posts@ == page_of(database.posts@, page as int),
        shown.current_page == page,
        shown.total_pages == ((database.posts@.len() + 1) as u32) / 2,
{
    let mut posts: Vec<Post> = Vec::new();
    let first: u32 = page * ENTRIES_PER_PAGE;
    let end: u32 = first + ENTRIES_PER_PAGE;
    let counted: u32 = database.posts.len() as u32;
    assert(counted <= database.posts@.len());
    let mut i: u32 = first;
    while i < end
        invariant
            first <= i <= end,
            end == first + ENTRIES_PER_PAGE,
            first == page * ENTRIES_PER_PAGE,
            counted == counted_posts(database.posts@),
            counted <= database.posts@.len(),
            posts@ == (if counted <= first {
                Seq::empty()
            } else if counted < i {
                database.posts@.subrange(first as int, counted as int)
            } else {
                database.posts@.subrange(first as int, i as int)
            }),
        decreases end - i,
    {
        if i < counted {
            posts.push(database.posts[i as usize].clone());
            assert(database.posts@.subrange(first as int, i + 1) =~= database.posts@.subrange(
                first as int,
                i as int,
            ).push(database.posts@[i as int]));
        }
        i = i + 1;
    }
    let total = total_pages(database.posts.len());
    PostIndex { posts, current_page: page, total_pages: total }
}

/// Whether the user with login name `username` may edit `post`: an
/// administrator, or the post's author.
pub open spec fn may_edit(users: Seq<User>, username: Seq<char>, post: Post) -> bool {
    admin_rights_of(users, username) > 0 || username == post.author@
}

/// Whether `user` may edit `post`.
pub fn can_edit(user: &AuthenticatedUser, post: &Post, database: &StateHandler) -> (allowed: bool)
    ensures
        allowed == may_edit(database.users@, user.username@, *post),
        allowed == (admin_rights_of(database.users@, user.username@) > 0 || user.username@ == post.author@),
{
    let admin_rights: u8 = match database.get_user(user.username.as_str()) {
        Some(record) => record.admin_rights,
        None => 0,
    };
    admin_rights > 0 || user.username == post.author
}

/// Publishes a post by `user` with the identifier and date given; it goes
/// before all other posts.
pub fn publish_post(
    user: &AuthenticatedUser,
    form: PostForm,
    uuid: String,
    date: String,
    database: &mut StateHandler,
)
    ensures
        final(database).posts@ == old(database).posts@.insert(
            0,
            Post { uuid, date, author: user.username, title: form.title, body: form.content },
        ),
        final(database).users@ == old(database).users@,
{
    let post = Post::new(uuid, date, user.username.clone(), form.title, form.content);
    database.posts.insert(0, post);
}

/// Publishes a post by `user` under a fresh random identifier, dated by the
/// clock reading `since` (UTC); it goes before all other posts. Where the
/// reading cannot be written as a date (no reading, or one past
/// [`MAX_FORMATTED_SECS`]) nothing is published and `false` comes back.
pub fn create_post_at(
    user: &AuthenticatedUser,
    form: PostForm,
    since: Option<(u64, u32)>,
    database: &mut StateHandler,
) -> (published: bool)
    ensures
        published == (since matches Some((secs, nanos)) && is_formattable(secs, nanos)),
        published ==> {
            let (secs, nanos) = since->0;
            &&& final(database).posts@.len() == old(database).posts@.len() + 1
            &&& final(database).posts@.drop_first() == old(database).posts@
            &&& is_v4_uuid_text(final(database).posts@[0].uuid@)
            &&& final(database).posts@[0].date@ == unix_time_text(secs as i64, nanos)
            &&& is_timestamp_text(final(database).posts@[0].date@)
            &&& final(database).posts@[0].author == user.username
            &&& final(database).posts@[0].title == form.title
            &&& final(database).posts@[0].body == form.content
        },
        !published ==> final(database).posts@ == old(database).posts@,
        final(database).users@ == old(database).users@,
{
    let date = match since_epoch_text(since) {
        Some(date) => date,
        None => return false,
    };
    let uuid = new_uuid_v4();
    publish_post(user, form, uuid, date, database);
    assert(database.posts@.drop_first() =~= old(database).posts@);
    true
}

/// Publishes a post by `user` under a fresh random identifier, dated now
/// (UTC): [`create_post_at`] on the system clock's reading.
pub fn create_post(user: &AuthenticatedUser, form: PostForm, database: &mut StateHandler) -> (published: bool)
    ensures
        published ==> {
            &&& final(database).posts@.len() == old(database).posts@.len() + 1
            &&& final(database).posts@.drop_first() == old(database).posts@
            &&& is_v4_uuid_text(final(database).posts@[0].uuid@)
            &&& is_timestamp_text(final(database).posts@[0].date@)
            &&& final(database).posts@[0].author == user.username
            &&& final(database).posts@[0].title == form.title
            &&& final(database).posts@[0].body == form.content
        },
        !published ==> final(database).posts@ == old(database).posts@,
        final(database).users@ == old(database).users@,
{
    create_post_at(user, form, clock_reading(), database)
}

/// The post that the edit page shows: `Ok(None)` where no post has the
/// identifier, `Err(Forbidden)` where `user` may not edit it.
pub fn edit(user: &AuthenticatedUser, uuid: &str, database: &StateHandler) -> (shown: Result<
    Option<Post>,
    Status,
>)
    ensures
        shown == (match post_position(database.posts@, uuid@) {
            None => Ok(None),
            Some(i) => if may_edit(database.users@, user.username@, database.posts@[i]) {
                Ok(Some(database.posts@[i]))
            } else {
                Err(Status::Forbidden)
            },
        }),
{
    match database.get_post_by_uuid(uuid) {
        Some(post) => {
            if can_edit(user, &post, database) {
                Ok(Some(post))
            } else {
                Err(Status::Forbidden)
            }
        },
        None => Ok(None),
    }
}

/// Applies an edit form: where `user` may edit the post, its title and body
/// are replaced. Returns whether the store changed.
pub fn edit_post(user: &AuthenticatedUser, form: PostEditForm, database: &mut StateHandler) -> (changed: bool)
    requires
        post_position(old(database).posts@, form.uuid@) is Some,
    ensures
        ({
            let i = post_position(old(database).posts@, form.uuid@)->0;
            let post = old(database).posts@[i];
            &&& changed == may_edit(old(database).users@, user.username@, post)
            &&& final(database).posts@ == if changed {
                old(database).posts@.update(
                    i,
                    Post { title: form.title, body: form.content, ..post },
                )
            } else {
                old(database).posts@
            }
        }),
        final(database).users@ == old(database).users@,
{
    let post_id = database.get_post_id_by_uuid(form.uuid.as_str()).unwrap();
    let post = database.get_post_by_id(post_id);
    match post {
        Some(post) => {
            if can_edit(user, &post, database) {
                let mut post = post;
                post.title = form.title;
                post.body = form.content;
                database.posts.set(post_id, post);
                true
            } else {
                false
            }
        },
        None => false,
    }
}


/// Every counted post stands on page `k / 5` of the index, at place `k % 5`.
pub proof fn lemma_post_on_its_page(posts: Seq<Post>, k: int)
    requires
        0 <= k < counted_posts(posts),
    ensures
        page_of(posts, k / 5).len() > k % 5,
        page_of(posts, k / 5)[k % 5] == posts[k],
{
    let n = counted_posts(posts);
    assert(n <= posts.len());
    let first = (k / 5) * 5;
    assert(first <= k < first + 5);
    assert(k - first == k % 5);
}

/// A post just created is the first one on the first page of the index.
pub proof fn lemma_new_post_leads_index(posts: Seq<Post>, post: Post)
    requires
        posts.len() + 1 <= u32::MAX,
    ensures
        page_of(posts.insert(0, post), 0).len() > 0,
        page_of(posts.insert(0, post), 0)[0] == post,
{
    let all = posts.insert(0, post);
    assert(counted_posts(all) == all.len());
}


/// The pages `0` up to `k - 1` of the index, one after another.
pub open spec fn first_pages(posts: Seq<Post>, k: nat) -> Seq<Post>
    decreases k,
{
    if k == 0 {
        Seq::empty()
    } else {
        first_pages(posts, (k - 1) as nat) + page_of(posts, k - 1)
    }
}

/// The number of pages of five that `n` posts fill.
pub open spec fn pages_needed(n: int) -> int {
    (n + 4) / 5
}

/// The first `k` pages together are the first `5 * k` posts, as far as the
/// counted posts reach.
pub proof fn lemma_first_pages(posts: Seq<Post>, k: nat)
    ensures
        first_pages(posts, k) == posts.subrange(
            0,
            if 5 * k <= counted_posts(posts) {
                5 * k as int
            } else {
                counted_posts(posts)
            },
        ),
    decreases k,
{
    let n = counted_posts(posts);
    assert(n <= posts.len());
    if k > 0 {
        lemma_first_pages(posts, (k - 1) as nat);
        let before: int = if 5 * (k - 1) <= n { 5 * (k - 1) } else { n };
        let after = if 5 * k <= n { 5 * k as int } else { n };
        assert(posts.subrange(0, before) + page_of(posts, k - 1) =~= posts.subrange(0, after));
    }
}

/// The pages of the index, read in order, give back the whole store, every
/// page but the last holding five posts; the pages after them are empty.
pub proof fn lemma_pages_give_back_store(posts: Seq<Post>)
    requires
        posts.len() <= u32::MAX,
    ensures
        first_pages(posts, pages_needed(posts.len() as int) as nat) == posts,
        forall|p: int| 0 <= p < pages_needed(posts.len() as int) - 1 ==> #[trigger] page_of(posts, p).len() == 5,
        posts.len() > 0 ==> 0 < page_of(posts, pages_needed(posts.len() as int) - 1).len() <= 5,
        forall|p: int| p >= pages_needed(posts.len() as int) ==> #[trigger] page_of(posts, p).len() == 0,
{
    let n = posts.len() as int;
    assert(counted_posts(posts) == n);
    let k = pages_needed(n);
    lemma_first_pages(posts, k as nat);
    assert(5 * k >= n);
    assert(posts.subrange(0, n) =~= posts);
}

/// `a` comes no later than `b` in string order (character by character).
pub open spec fn text_le(a: Seq<char>, b: Seq<char>) -> bool
    decreases a.len(),
{
    if a.len() == 0 {
        true
    } else if b.len() == 0 {
        false
    } else if a[0] != b[0] {
        a[0] < b[0]
    } else {
        text_le(a.drop_first(), b.drop_first())
    }
}

/// The posts run from the newest date to the oldest, in string order of dates.
pub open spec fn newest_first(posts: Seq<Post>) -> bool {
    forall|i: int, j: int|
        #![trigger posts[i], posts[j]]
        0 <= i < j < posts.len() ==> text_le(posts[j].date@, posts[i].date@)
}

/// Publishing a post dated no earlier than every stored post keeps the posts
/// newest first, with the new post at their head.
pub proof fn lemma_publish_keeps_newest_first(posts: Seq<Post>, post: Post)
    requires
        newest_first(posts),
        forall|i: int| 0 <= i < posts.len() ==> text_le(#[trigger] posts[i].date@, post.date@),
    ensures
        newest_first(posts.insert(0, post)),
        posts.insert(0, post)[0] == post,
{
    let all = posts.insert(0, post);
    assert forall|i: int, j: int| 0 <= i < j < all.len() implies text_le(
        #[trigger] all[j].date@,
        #[trigger] all[i].date@,
    ) by {
        assert(all[j] == posts[j - 1]);
        if i > 0 {
            assert(all[i] == posts[i - 1]);
        }
    }
}


/// Who may edit a post: every user with admin rights above 0 may edit any
/// post, whoever wrote it and whatever that author's rights; any user may
/// edit their own posts; a user without admin rights may edit no other post.
pub proof fn lemma_who_may_edit(users: Seq<User>, username: Seq<char>, post: Post)
    ensures
        (user_position(users, username) matches Some(i) && users[i].admin_rights > 0) ==> may_edit(
            users,
            username,
            post,
        ),
        username == post.author@ ==> may_edit(users, username, post),
        (match user_position(users, username) {
            Some(i) => users[i].admin_rights == 0,
            None => true,
        }) && username != post.author@ ==> !may_edit(users, username, post),
{
}

} // verus!
