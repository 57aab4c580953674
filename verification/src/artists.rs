//! The artist dropdown and the artist detail panel, with the user's own edits applied.

use vstd::prelude::*;
use crate::text::{concat, concat_strings, escape_quotes, escape_quotes_of, join, join_strings, owned, same_text};
use crate::reply::{error_response, html_ok, paragraph, Reply, STATUS_INTERNAL_SERVER_ERROR, STATUS_NOT_FOUND, STATUS_OK};
use crate::json::{json_object_fields, json_string_list, object_fields, string_list};
use crate::models::{Artist, ArtistAppearance, ArtistMerge, ArtistMetadata, ArtistRename, UserMTGSelection};

verus! {

/// The first entry of the artist dropdown.
pub const FIRST_OPTION: &'static str = r#"<option value="">Choose an artist...</option>"#;
pub const OPTION_0: &'static str = r#"<option value=""#;
pub const OPTION_1: &'static str = r#"" data-saved=""#;
pub const OPTION_2: &'static str = r#"">"#;
pub const OPTION_3: &'static str = r#"</option>"#;
pub const DETAIL_HEAD_0: &'static str = r#"<div class="artist-info" data-artist-id=""#;
pub const DETAIL_HEAD_1: &'static str = r#"" data-original-name=""#;
pub const DETAIL_HEAD_2: &'static str = r#"" data-saved-card=""#;
pub const DETAIL_HEAD_3: &'static str = r#"">
            <div class="save-section">
                <button id="save-changes" class="save-button" disabled>Save Changes</button>
                <button id="delete-artist" class="delete-button">Delete Artist</button>
                <div id="save-status" class="save-status"></div>
            </div>

            <!-- Mobile Tabs -->
            <div class="mobile-tabs">
                <button class="tab-button active" data-tab="info">Info</button>
                <button class="tab-button" data-tab="metadata">Metadata</button>
                <button class="tab-button" data-tab="search">Card</button>
            </div>

            <!-- Tab Content: Info -->
            <div class="tab-content active" data-tab-content="info">
                <h2>Artist Details</h2>
                <input type="text"
                       id="artist-name-input"
                       value=""#;
pub const DETAIL_HEAD_4: &'static str = r#""
                       placeholder="Artist name">
        "#;
pub const APPEARANCES_OPEN: &'static str = r#"<h3>Appearances</h3><table><thead><tr><th>Year</th></tr></thead><tbody>"#;
pub const METADATA_OPEN: &'static str = r#"
            <!-- Tab Content: Metadata -->
            <div class="tab-content" data-tab-content="metadata">
                <h3>Metadata</h3>
                <div id="metadata-section">"#;
pub const DELETE_FIELD_BUTTON: &'static str = r#"<button class="delete-field-btn" title="Delete field">×</button>"#;
pub const FIELD_0: &'static str = r#"<div class="metadata-field" data-field-name=""#;
pub const FIELD_1: &'static str = r#"">
                <label>"#;
pub const FIELD_2: &'static str = r#"</label>
                <input type="text" class="metadata-input" data-field=""#;
pub const FIELD_3: &'static str = r#"" value=""#;
pub const FIELD_4: &'static str = r#"">
                "#;
pub const FIELD_5: &'static str = r#"
            </div>"#;
pub const NEW_FIELD_SECTION: &'static str = r#"
        <div class="metadata-new-field">
            <h4>Add Custom Field</h4>
            <div class="metadata-new-field-row">
                <input type="text" id="new-field-name" placeholder="Field name (e.g., genre, country)">
                <input type="text" id="new-field-value" placeholder="Value">
            </div>
            <button id="add-metadata-field">Add Field</button>
        </div>
                </div>
            </div><!-- Close metadata tab -->"#;
pub const DETAIL_TAIL_0: &'static str = r#"
            <!-- Tab Content: Card -->
            <div class="tab-content" data-tab-content="search">
                <div class="mtg-section">
                    <h3>Community Picks</h3>
                    <div hx-get="/artists/"#;
pub const DETAIL_TAIL_1: &'static str = r##"/mtg/recommendations"
                 hx-trigger="load"
                 hx-target="this"
                 hx-swap="innerHTML"
                 hx-indicator="#rec-loading">
                <span id="rec-loading" class="htmx-indicator">
                    <span class="loading-spinner large"></span>
                    <span style="margin-left: 1rem;">Loading recommendations...</span>
                </span>
            </div>

            <h3>Search All Cards</h3>
            <form id="mtg-search-form" class="mtg-filters"
                  hx-get="/mtg/search"
                  hx-target="#search-results"
                  hx-trigger="submit"
                  hx-indicator="#search-loading">
                <input type="hidden" name="artist_id" value=""##;
/// The rest of the detail panel after the artist id in the search form: the card viewer script.
pub const DETAIL_SCRIPT_0: &'static str = r#"">
                <div class="filter-row">
                    <div class="filter-group">
                        <label>Rarity:</label>
                        <select name="rarity">
                            <option value="">Any</option>
                            <option value="common">Common</option>
                            <option value="uncommon">Uncommon</option>
                            <option value="rare">Rare</option>
                            <option value="mythic">Mythic</option>
                        </select>
                    </div>

                    <div class="filter-group">
                        <label>Mana Cost:</label>
                        <input type="number" name="cmc" min="0" max="16" step="1" placeholder="0-16">
                    </div>
                </div>

                <div class="filter-group">
                    <label>Mechanic:</label>
                    <select name="mechanic">
                        <option value="">Any</option>
                        <option value="flying">Flying</option>
                        <option value="deathtouch">Deathtouch</option>
                        <option value="first strike">First Strike</option>
                        <option value="haste">Haste</option>
                        <option value="hexproof">Hexproof</option>
                        <option value="lifelink">Lifelink</option>
                        <option value="menace">Menace</option>
                        <option value="reach">Reach</option>
                        <option value="trample">Trample</option>
                        <option value="vigilance">Vigilance</option>
                        <option value="flash">Flash</option>
                        <option value="defender">Defender</option>
                    </select>
                </div>

                <div class="filter-group">
                    <label>Colors:</label>
"#;
pub const DETAIL_SCRIPT_1: &'static str = r#"                    <div class="color-checkboxes">
                        <label class="color-checkbox">
                            <input type="checkbox" class="color-check" value="W">
                            <span class="color-label white">W</span>
                        </label>
                        <label class="color-checkbox">
                            <input type="checkbox" class="color-check" value="U">
                            <span class="color-label blue">U</span>
                        </label>
                        <label class="color-checkbox">
                            <input type="checkbox" class="color-check" value="B">
                            <span class="color-label black">B</span>
                        </label>
                        <label class="color-checkbox">
                            <input type="checkbox" class="color-check" value="R">
                            <span class="color-label red">R</span>
                        </label>
                        <label class="color-checkbox">
                            <input type="checkbox" class="color-check" value="G">
                            <span class="color-label green">G</span>
                        </label>
                    </div>
                    <input type="hidden" name="colors" id="colors-input">
                </div>

                <div class="filter-group">
                    <label>
                        Card Name or Text:
                        <span class="search-help-icon" title="Search examples:&#10;• 'lightning bolt' - searches all text&#10;• 'name:jace' - card names only&#10;• 'o:draw' or 'oracle:draw' - rules text&#10;• 't:creature' - creature cards&#10;• 'o:destroy o:target' - cards with both words">ⓘ</span>
                    </label>
                    <input type="text" name="q" id="card-search-input" placeholder="e.g., lightning bolt, o:draw, t:creature">
                </div>

                <button type="submit">
                    Search Cards
                    <span id="search-loading" class="htmx-indicator loading-spinner"></span>
                </button>
            </form>

            <script>
"#;
pub const DETAIL_SCRIPT_2: &'static str = r#"            (function() {
                document.getElementById('mtg-search-form').addEventListener('submit', function(e) {
                    // Handle color checkboxes
                    const checked = Array.from(document.querySelectorAll('.color-check:checked')).map(cb => cb.value);
                    document.getElementById('colors-input').value = checked.join(',');

                    // Handle CMC - remove the parameter if empty so it doesn't filter by CMC=0
                    const cmcInput = this.querySelector('input[name="cmc"]');
                    if (cmcInput && cmcInput.value === '') {
                        cmcInput.removeAttribute('name');
                        // Re-add name after submission for next search
                        setTimeout(() => cmcInput.setAttribute('name', 'cmc'), 100);
                    }
                });
            })();
            </script>

            <div id="search-results" class="card-search-results">
                <p>Enter search criteria to find cards</p>
            </div>

            <script>
            (function() {
                // Auto-load saved card if available
                const savedCardId = document.querySelector('.artist-info').dataset.savedCard;
                const artistId = document.querySelector('.artist-info').dataset.artistId;

                if (savedCardId && artistId) {
                    // Wait for viewer with polling instead of fixed timeout
                    let attempts = 0;
                    const waitForViewer = setInterval(() => {
                        if (window.viewer || attempts++ > 50) {
                            clearInterval(waitForViewer);
                            if (window.viewer) {
                                window.viewer.loadCard(savedCardId, artistId);
                                console.log('Auto-loaded saved card:', savedCardId);
                            } else {
                                console.error('Viewer not available after 5 seconds');
                            }
                        }
"#;
pub const DETAIL_SCRIPT_3: &'static str = r#"                    }, 100); // Check every 100ms, max 5 seconds
                }

                // Track changes and enable/disable save button
                const saveButton = document.getElementById('save-changes');
            const nameInput = document.getElementById('artist-name-input');
            const originalName = document.querySelector('.artist-info').dataset.originalName;

            // Store original metadata values
            const originalMetadata = {};
            document.querySelectorAll('.metadata-input').forEach(input => {
                originalMetadata[input.dataset.field] = input.value.trim();
            });

            window.checkForChanges = function() {
                const nameChanged = nameInput.value.trim() !== originalName;

                // Always read current saved card ID from dataset (it may have been updated after save)
                const savedCardId = document.querySelector('.artist-info').dataset.savedCard;
                const cardChanged = viewer && viewer.currentCardId && viewer.currentCardId !== savedCardId;

                // Check if metadata has changed
                let metadataChanged = false;

                // Build current metadata from inputs
                const currentFields = new Set();
                document.querySelectorAll('.metadata-input').forEach(input => {
                    const field = input.dataset.field;
                    currentFields.add(field);
                    const currentValue = input.value.trim();
                    const originalValue = originalMetadata[field] || '';
                    if (currentValue !== originalValue) {
                        metadataChanged = true;
                    }
                });

                // Check if any fields were deleted
                Object.keys(originalMetadata).forEach(field => {
                    if (!currentFields.has(field)) {
                        metadataChanged = true;
"#;
pub const DETAIL_SCRIPT_4: &'static str = r#"                    }
                });

                const hasChanges = nameChanged || cardChanged || metadataChanged;
                saveButton.disabled = !hasChanges;
            }

            // Check for changes on name input
            nameInput.addEventListener('input', checkForChanges);

            // Check for changes on metadata inputs
            document.querySelectorAll('.metadata-input').forEach(input => {
                input.addEventListener('input', checkForChanges);
            });

            // Handle save button
            document.getElementById('save-changes').addEventListener('click', async function() {
                const artistId = document.querySelector('.artist-info').dataset.artistId;
                const originalName = document.querySelector('.artist-info').dataset.originalName;
                const currentName = document.getElementById('artist-name-input').value.trim();
                const statusDiv = document.getElementById('save-status');

                let savedItems = [];
                let errors = [];

                // Save artist name if changed
                if (currentName !== originalName && currentName !== '') {
                    try {
                        const params = new URLSearchParams();
                        params.append('new_name', currentName);
                        const response = await fetch(`/artists/${artistId}/rename`, {
                            method: 'POST',
                            headers: {
                                'Content-Type': 'application/x-www-form-urlencoded'
                            },
                            body: params
                        });
                        if (response.ok) {
                            savedItems.push('name');
                            document.querySelector('.artist-info').dataset.originalName = currentName;
"#;
pub const DETAIL_SCRIPT_5: &'static str = r#"                        } else {
                            errors.push('name');
                        }
                    } catch (e) {
                        errors.push('name');
                    }
                }

                // Save card selection if a card is loaded
                if (viewer && viewer.currentCardId && viewer.currentArtistId) {
                    console.log('Saving card:', {
                        artistId: viewer.currentArtistId,
                        scryfallId: viewer.currentCardId
                    });
                    try {
                        const params = new URLSearchParams();
                        params.append('artist_id', viewer.currentArtistId);
                        params.append('scryfall_id', viewer.currentCardId);
                        const response = await fetch('/mtg/select', {
                            method: 'POST',
                            headers: {
                                'Content-Type': 'application/x-www-form-urlencoded'
                            },
                            body: params
                        });
                        const responseText = await response.text();
                        console.log('Card save response:', { ok: response.ok, status: response.status, body: responseText });
                        if (response.ok) {
                            savedItems.push('card');
                            document.querySelector('.artist-info').dataset.savedCard = viewer.currentCardId;
                        } else {
                            console.error('Card save failed:', responseText);
                            errors.push('card');
                        }
                    } catch (e) {
                        console.error('Card save error:', e);
                        errors.push('card');
                    }
                } else {
                    console.log('Card save skipped:', {
"#;
pub const DETAIL_SCRIPT_6: &'static str = r#"                        hasViewer: !!viewer,
                        currentCardId: viewer?.currentCardId,
                        currentArtistId: viewer?.currentArtistId
                    });
                }

                // Save metadata if changed
                let metadataChanged = false;
                const currentMetadata = {};
                document.querySelectorAll('.metadata-input').forEach(input => {
                    const field = input.dataset.field;
                    let value = input.value.trim();

                    // Convert tags from comma-separated to JSON array format
                    if (field === 'tags' && value) {
                        const tagsArray = value.split(',').map(t => t.trim()).filter(t => t);
                        value = JSON.stringify(tagsArray);
                    }

                    if (value) {
                        currentMetadata[field] = value;
                    }
                    const originalValue = originalMetadata[field] || '';
                    if (value !== originalValue) {
                        metadataChanged = true;
                    }
                });

                if (metadataChanged) {
                    try {
                        const params = new URLSearchParams();
                        params.append('metadata_json', JSON.stringify(currentMetadata));
                        const response = await fetch(`/artists/${artistId}/metadata`, {
                            method: 'POST',
                            headers: {
                                'Content-Type': 'application/x-www-form-urlencoded'
                            },
                            body: params
                        });
                        if (response.ok) {
"#;
pub const DETAIL_SCRIPT_7: &'static str = r#"                            savedItems.push('metadata');
                            // Update original metadata with current input values (not the JSON-formatted versions)
                            Object.keys(originalMetadata).forEach(key => delete originalMetadata[key]);
                            document.querySelectorAll('.metadata-input').forEach(input => {
                                const field = input.dataset.field;
                                const value = input.value.trim();
                                if (value) {
                                    originalMetadata[field] = value;
                                }
                            });
                        } else {
                            errors.push('metadata');
                        }
                    } catch (e) {
                        errors.push('metadata');
                    }
                }

                // Show status
                if (savedItems.length > 0) {
                    statusDiv.textContent = `Saved: ${savedItems.join(', ')}`;
                    statusDiv.className = 'save-status success';
                } else if (errors.length > 0) {
                    statusDiv.textContent = `Error saving: ${errors.join(', ')}`;
                    statusDiv.className = 'save-status error';
                } else {
                    statusDiv.textContent = 'No changes to save';
                    statusDiv.className = 'save-status';
                }

                setTimeout(() => statusDiv.textContent = '', 3000);

                // Re-check for changes to disable button if everything is saved
                checkForChanges();
            });

            // Handle delete button
            document.getElementById('delete-artist').addEventListener('click', async function() {
                const artistId = document.querySelector('.artist-info').dataset.artistId;
                const artistName = document.getElementById('artist-name-input').value.trim();
"#;
pub const DETAIL_SCRIPT_8: &'static str = r#"
                if (!confirm(`Are you sure you want to delete "${artistName}" from your view? This will remove it from your artist list.`)) {
                    return;
                }

                try {
                    const response = await fetch(`/artists/${artistId}/delete`, {
                        method: 'POST'
                    });

                    if (response.ok) {
                        // Refresh artist list
                        htmx.ajax('GET', '/artists', {target: '#artist-select', swap: 'innerHTML'});
                        // Clear detail panel
                        document.getElementById('artist-detail').innerHTML = '<p>Artist deleted. Select another artist.</p>';
                    } else {
                        alert('Error deleting artist');
                    }
                } catch (e) {
                    alert('Error deleting artist');
                }
            });

            // Handle metadata
            document.getElementById('add-metadata-field')?.addEventListener('click', function() {
                const fieldName = document.getElementById('new-field-name').value.trim();
                const fieldValue = document.getElementById('new-field-value').value.trim();

                if (!fieldName || !fieldValue) {
                    alert('Please enter both field name and value');
                    return;
                }

                // Add new field with delete button
                const newFieldHtml = `
                    <div class="metadata-field" data-field-name="${fieldName}">
                        <label>${fieldName}</label>
                        <input type="text" class="metadata-input" data-field="${fieldName}" value="${fieldValue}">
                        <button class="delete-field-btn" title="Delete field">×</button>
                    </div>
"#;
pub const DETAIL_SCRIPT_9: &'static str = r#"                `;

                const newFieldSection = document.querySelector('.metadata-new-field');
                newFieldSection.insertAdjacentHTML('beforebegin', newFieldHtml);

                // Attach input listener to the new field
                const newInputs = document.querySelectorAll('.metadata-input');
                const newInput = newInputs[newInputs.length - 1];
                newInput.addEventListener('input', checkForChanges);

                // Mark as changed so Save Changes button enables
                checkForChanges();

                // Clear inputs
                document.getElementById('new-field-name').value = '';
                document.getElementById('new-field-value').value = '';
            });

            // Handle metadata field deletion (event delegation)
            document.getElementById('metadata-section')?.addEventListener('click', function(e) {
                if (e.target.classList.contains('delete-field-btn')) {
                    const fieldDiv = e.target.closest('.metadata-field');

                    // Remove the field from DOM
                    fieldDiv.remove();

                    // Mark as changed (DO NOT delete from originalMetadata - that's the baseline!)
                    checkForChanges();
                }
            });

            // Mobile tab switching
            document.querySelectorAll('.tab-button').forEach(button => {
                button.addEventListener('click', function() {
                    const tabName = this.dataset.tab;

                    // Remove active class from all buttons and tabs
                    document.querySelectorAll('.tab-button').forEach(btn => btn.classList.remove('active'));
                    document.querySelectorAll('.tab-content').forEach(content => content.classList.remove('active'));

"#;
pub const DETAIL_SCRIPT_10: &'static str = r#"                    // Add active class to clicked button and corresponding tab
                    this.classList.add('active');
                    document.querySelector(`[data-tab-content="${tabName}"]`).classList.add('active');
                });
            });
            })();
            </script>
                </div><!-- Close mtg-section -->
            </div><!-- Close search tab -->
        </div><!-- Close artist-info -->
        "#;

// ---------------------------------------------------------------------------
// Artist dropdown

/// What the artist dropdown is built from: all artists ordered by name, and the
/// user's renames (newest first), deleted artist ids, merges and the ids of
/// artists with a saved card.
#[derive(Debug)]
pub struct ArtistList {
    pub artists: Vec<Artist>,
    pub renames: Vec<ArtistRename>,
    pub deletes: Vec<String>,
    pub merges: Vec<ArtistMerge>,
    pub saved: Vec<String>,
}

/// The name a user gave an artist: the newest rename that carries a name, that is
/// the first such entry of the newest-first list.
pub open spec fn rename_for(renames: Seq<ArtistRename>, id: Seq<char>) -> Option<Seq<char>>
    decreases renames.len(),
{
    if renames.len() == 0 {
        None
    } else {
        let r = renames[0];
        if r.artist_id@ == id && r.new_name is Some {
            Some(r.new_name->0@)
        } else {
            rename_for(renames.drop_first(), id)
        }
    }
}

/// True when the user merged the artist into another artist.
pub open spec fn merged_away(merges: Seq<ArtistMerge>, id: Seq<char>) -> bool {
    exists|i: int| 0 <= i < merges.len() && #[trigger] merges[i].artist_id@ == id
        && (merges[i].merge_into matches Some(t) && t@ != id)
}

/// True when the user no longer sees the artist on its own: deleted, or merged into another artist.
pub open spec fn hidden(id: Seq<char>, deletes: Seq<Seq<char>>, merges: Seq<ArtistMerge>) -> bool {
    deletes.contains(id) || merged_away(merges, id)
}

/// The artists that the user still sees on their own, in their order.
pub open spec fn listed(artists: Seq<Artist>, deletes: Seq<Seq<char>>, merges: Seq<ArtistMerge>) -> Seq<Artist>
    decreases artists.len(),
{
    if artists.len() == 0 {
        Seq::<Artist>::empty()
    } else {
        let prev = listed(artists.drop_last(), deletes, merges);
        if hidden(artists.last().id@, deletes, merges) {
            prev
        } else {
            prev.push(artists.last())
        }
    }
}

/// The name shown for an artist: the user's newest rename, else the artist's own name.
pub open spec fn shown_name(a: Artist, renames: Seq<ArtistRename>) -> Seq<char> {
    match rename_for(renames, a.id@) {
        Some(n) => n,
        None => a.name@,
    }
}

/// One dropdown entry: the artist's id, whether the user saved a card for it, and its shown name.
pub open spec fn option_line(a: Artist, renames: Seq<ArtistRename>, saved: Seq<Seq<char>>) -> Seq<char> {
    OPTION_0@ + a.id@ + OPTION_1@ + (if saved.contains(a.id@) { "true"@ } else { "false"@ })
        + OPTION_2@ + shown_name(a, renames) + OPTION_3@
}

/// The artist dropdown: a first placeholder entry, then one entry per listed artist, one per line.
pub open spec fn artist_options(list: ArtistList) -> Seq<char> {
    join(
        seq![FIRST_OPTION@] + listed(list.artists@, list.deletes.deep_view(), list.merges@).map_values(
            |a: Artist| option_line(a, list.renames@, list.saved.deep_view()),
        ),
        "\n"@,
    )
}

/// An artist is listed exactly when it is among the artists and the user has
/// neither deleted it nor merged it into another artist.
pub proof fn lemma_listed_iff_visible(artists: Seq<Artist>, deletes: Seq<Seq<char>>, merges: Seq<ArtistMerge>, a: Artist)
    ensures
        listed(artists, deletes, merges).contains(a) <==> (artists.contains(a) && !hidden(a.id@, deletes, merges)),
    decreases artists.len(),
{
    if artists.len() > 0 {
        let init = artists.drop_last();
        let last = artists.last();
        let prev = listed(init, deletes, merges);
        lemma_listed_iff_visible(init, deletes, merges, a);
        assert(artists =~= init.push(last));
        assert(artists.contains(a) <==> (init.contains(a) || last == a)) by {
            if artists.contains(a) {
                let i = choose|i: int| 0 <= i < artists.len() && artists[i] == a;
                if i < init.len() {
                    assert(init[i] == a);
                }
            }
            if init.contains(a) {
                let k = choose|k: int| 0 <= k < init.len() && init[k] == a;
                assert(artists[k] == a);
            }
            if last == a {
                assert(artists[artists.len() - 1] == a);
            }
        }
        if !hidden(last.id@, deletes, merges) {
            let now = prev.push(last);
            assert(now.contains(a) <==> (prev.contains(a) || last == a)) by {
                if now.contains(a) {
                    let j = choose|j: int| 0 <= j < now.len() && now[j] == a;
                    if j < prev.len() {
                        assert(prev[j] == a);
                    }
                }
                if prev.contains(a) {
                    let j = choose|j: int| 0 <= j < prev.len() && prev[j] == a;
                    assert(now[j] == a);
                }
                if last == a {
                    assert(now[now.len() - 1] == a);
                }
            }
        }
    }
}

/// An artist that the user merged into another artist is not listed on its own.
pub proof fn lemma_merged_artist_not_listed(list: ArtistList, i: int, a: Artist)
    requires
        0 <= i < list.merges@.len(),
        list.merges@[i].artist_id@ == a.id@,
        list.merges@[i].merge_into matches Some(t) && t@ != a.id@,
    ensures
        !listed(list.artists@, list.deletes.deep_view(), list.merges@).contains(a),
{
    assert(merged_away(list.merges@, a.id@));
    lemma_listed_iff_visible(list.artists@, list.deletes.deep_view(), list.merges@, a);
}

/// True when a rename row gives artist `id` a name.
pub open spec fn names_artist(r: ArtistRename, id: Seq<char>) -> bool {
    r.artist_id@ == id && r.new_name is Some
}

/// Renames of other artists, and rows without a name, do not change an artist's
/// shown name; a named rename of the artist at the head of the list decides it.
pub proof fn lemma_rename_head(r: ArtistRename, rs: Seq<ArtistRename>, id: Seq<char>)
    ensures
        r.artist_id@ != id ==> rename_for(seq![r] + rs, id) == rename_for(rs, id),
        r.new_name is None ==> rename_for(seq![r] + rs, id) == rename_for(rs, id),
        names_artist(r, id) ==> rename_for(seq![r] + rs, id) == Some(r.new_name->0@),
{
    assert((seq![r] + rs).drop_first() =~= rs);
    assert((seq![r] + rs)[0] == r);
}

/// The name a user gave an artist is that of the first row of the newest-first
/// list that names the artist; without such a row there is none.
pub proof fn lemma_rename_is_newest(renames: Seq<ArtistRename>, id: Seq<char>)
    ensures
        forall|i: int| 0 <= i < renames.len() && #[trigger] names_artist(renames[i], id)
            && (forall|j: int| 0 <= j < i ==> !names_artist(renames[j], id))
            ==> rename_for(renames, id) == Some(renames[i].new_name->0@),
        (forall|j: int| 0 <= j < renames.len() ==> !#[trigger] names_artist(renames[j], id))
            ==> rename_for(renames, id) is None,
    decreases renames.len(),
{
    if renames.len() > 0 {
        let rest = renames.drop_first();
        lemma_rename_is_newest(rest, id);
        assert forall|i: int| 0 <= i < renames.len() && #[trigger] names_artist(renames[i], id)
            && (forall|j: int| 0 <= j < i ==> !names_artist(renames[j], id))
            implies rename_for(renames, id) == Some(renames[i].new_name->0@) by {
            if i > 0 {
                assert(!names_artist(renames[0], id));
                assert(rest[i - 1] == renames[i]);
                assert forall|j: int| 0 <= j < i - 1 implies !names_artist(rest[j], id) by {
                    assert(rest[j] == renames[j + 1]);
                }
            }
        }
        if forall|j: int| 0 <= j < renames.len() ==> !#[trigger] names_artist(renames[j], id) {
            assert(!names_artist(renames[0], id));
            assert forall|j: int| 0 <= j < rest.len() implies !#[trigger] names_artist(rest[j], id) by {
                assert(rest[j] == renames[j + 1]);
            }
        }
    }
}

fn contains_string(v: &Vec<String>, t: &String) -> (res: bool)
    ensures
        res == v.deep_view().contains(t@),
{
    let n: usize = v.len();
    let mut i: usize = 0;
    while i < n
        invariant
            n == v@.len(),
            i <= n,
            forall|k: int| 0 <= k < i ==> v.deep_view()[k] != t@,
        decreases n - i,
    {
        if v[i] == *t {
            assert(v.deep_view()[i as int] == t@);
            return true;
        }
        i = i + 1;
    }
    false
}

fn is_merged_away(merges: &Vec<ArtistMerge>, id: &String) -> (res: bool)
    ensures
        res == merged_away(merges@, id@),
{
    let n: usize = merges.len();
    let mut i: usize = 0;
    while i < n
        invariant
            n == merges@.len(),
            i <= n,
            forall|k: int| 0 <= k < i ==> !(#[trigger] merges@[k].artist_id@ == id@
                && (merges@[k].merge_into matches Some(t) && t@ != id@)),
        decreases n - i,
    {
        let m: &ArtistMerge = &merges[i];
        if m.artist_id == *id {
            if let Some(t) = &m.merge_into {
                if *t != *id {
                    assert(merges@[i as int].artist_id@ == id@);
                    return true;
                }
            }
        }
        i = i + 1;
    }
    false
}

fn rename_lookup(renames: &Vec<ArtistRename>, id: &String) -> (res: Option<String>)
    ensures
        res.deep_view() == rename_for(renames@, id@),
{
    let n: usize = renames.len();
    let mut i: usize = 0;
    assert(renames@.skip(0) =~= renames@);
    while i < n
        invariant
            n == renames@.len(),
            i <= n,
            rename_for(renames@, id@) == rename_for(renames@.skip(i as int), id@),
        decreases n - i,
    {
        assert(renames@.skip(i as int).drop_first() =~= renames@.skip(i + 1));
        assert(renames@.skip(i as int)[0] == renames@[i as int]);
        let r: &ArtistRename = &renames[i];
        if r.artist_id == *id {
            if let Some(name) = &r.new_name {
                return Some(name.clone());
            }
        }
        i = i + 1;
    }
    None
}

fn option_line_text(a: &Artist, renames: &Vec<ArtistRename>, saved: &Vec<String>) -> (res: String)
    ensures
        res@ == option_line(*a, renames@, saved.deep_view()),
{
    let mut s: String = owned(OPTION_0);
    s.append(a.id.as_str());
    s.append(OPTION_1);
    if contains_string(saved, &a.id) {
        s.append("true");
    } else {
        s.append("false");
    }
    s.append(OPTION_2);
    match rename_lookup(renames, &a.id) {
        Some(n) => s.append(n.as_str()),
        None => s.append(a.name.as_str()),
    }
    s.append(OPTION_3);
    s
}

/// The answer to the artist dropdown request: the entries, or an error entry
/// with status 500 when the artists could not be read (`None`).
pub fn list_artists_reply(list: Option<ArtistList>) -> (r: Reply)
    ensures
        match list {
            Some(l) => r.is_html(STATUS_OK, artist_options(l)),
            None => r.is_html(STATUS_INTERNAL_SERVER_ERROR, paragraph("<option>Error loading artists</option>"@)),
        },
{
    let l: ArtistList = match list {
        Some(l) => l,
        None => {
            return error_response(STATUS_INTERNAL_SERVER_ERROR, "<option>Error loading artists</option>");
        },
    };
    let ghost deletes = l.deletes.deep_view();
    let ghost merges = l.merges@;
    let mut lines: Vec<String> = Vec::new();
    lines.push(owned(FIRST_OPTION));
    assert(lines.deep_view() =~= seq![FIRST_OPTION@]);
    let n: usize = l.artists.len();
    let mut i: usize = 0;
    while i < n
        invariant
            n == l.artists@.len(),
            i <= n,
            deletes == l.deletes.deep_view(),
            merges == l.merges@,
            lines.deep_view() == seq![FIRST_OPTION@] + listed(l.artists@.take(i as int), deletes, merges).map_values(
                |a: Artist| option_line(a, l.renames@, l.saved.deep_view()),
            ),
        decreases n - i,
    {
        let a: &Artist = &l.artists[i];
        assert(l.artists@.take(i + 1).drop_last() =~= l.artists@.take(i as int));
        assert(l.artists@.take(i + 1).last() == *a);
        let ghost before = lines.deep_view();
        let ghost prev = listed(l.artists@.take(i as int), deletes, merges);
        if !contains_string(&l.deletes, &a.id) && !is_merged_away(&l.merges, &a.id) {
            let line: String = option_line_text(a, &l.renames, &l.saved);
            lines.push(line);
            assert(lines.deep_view() =~= before.push(line@));
            assert(prev.push(*a).map_values(|a: Artist| option_line(a, l.renames@, l.saved.deep_view()))
                =~= prev.map_values(|a: Artist| option_line(a, l.renames@, l.saved.deep_view())).push(line@));
        }
        i = i + 1;
    }
    assert(l.artists@.take(n as int) =~= l.artists@);
    html_ok(join_strings(&lines, "\n"))
}

// ---------------------------------------------------------------------------
// Artist detail panel

/// What the detail panel of an artist is built from, for one user.
#[derive(Debug)]
pub struct ArtistDetail {
    pub artist: Artist,
    /// Festival years, in year order.
    pub appearances: Vec<ArtistAppearance>,
    pub metadata: Option<ArtistMetadata>,
    /// The user's card for this artist.
    pub saved_card: Option<UserMTGSelection>,
    /// The user's newest rename of this artist, when there is one (its name may be missing).
    pub latest_rename: Option<Option<String>>,
    /// The user's own metadata for this artist, a JSON object text.
    pub user_metadata_json: Option<String>,
}

/// Metadata fields in order, where setting a field that is there already
/// replaces its value in place and a new field goes last.
pub open spec fn entries_insert(m: Seq<(Seq<char>, Seq<char>)>, k: Seq<char>, v: Seq<char>) -> Seq<(Seq<char>, Seq<char>)>
    decreases m.len(),
{
    if m.len() == 0 {
        seq![(k, v)]
    } else if m[0].0 == k {
        m.update(0, (k, v))
    } else {
        seq![m[0]] + entries_insert(m.drop_first(), k, v)
    }
}

/// The metadata that every user sees: the tags (as `tags`) and the area (as `location`).
pub open spec fn base_entries(meta: Option<ArtistMetadata>) -> Seq<(Seq<char>, Seq<char>)> {
    match meta {
        Some(m) => {
            let with_tags = match m.tags {
                Some(t) => entries_insert(Seq::empty(), "tags"@, t@),
                None => Seq::empty(),
            };
            match m.area {
                Some(a) => entries_insert(with_tags, "location"@, a@),
                None => with_tags,
            }
        },
        None => Seq::empty(),
    }
}

/// The fields after setting, in order, every user field whose value is a JSON string.
pub open spec fn with_user_fields(m: Seq<(Seq<char>, Seq<char>)>, fields: Seq<(Seq<char>, Option<Seq<char>>)>) -> Seq<(Seq<char>, Seq<char>)>
    decreases fields.len(),
{
    if fields.len() == 0 {
        m
    } else {
        let prev = with_user_fields(m, fields.drop_last());
        match fields.last().1 {
            Some(v) => entries_insert(prev, fields.last().0, v),
            None => prev,
        }
    }
}

/// The metadata fields shown to a user: the base fields, overridden and extended
/// by the user's own fields when the user's text is a JSON object.
pub open spec fn metadata_entries(meta: Option<ArtistMetadata>, user_json: Option<Seq<char>>) -> Seq<(Seq<char>, Seq<char>)> {
    let base = base_entries(meta);
    match user_json {
        Some(j) => match json_object_fields(j) {
            Some(f) => with_user_fields(base, f),
            None => base,
        },
        None => base,
    }
}

/// How a field's value is shown, given the value read as a JSON list of strings
/// (`parsed`): tags so stored are shown comma-separated, every other value as it is.
pub open spec fn display_with(k: Seq<char>, v: Seq<char>, parsed: Option<Seq<Seq<char>>>) -> Seq<char> {
    if k == "tags"@ {
        match parsed {
            Some(l) => join(l, ", "@),
            None => v,
        }
    } else {
        v
    }
}

/// How a field's value is shown.
pub open spec fn display_value(k: Seq<char>, v: Seq<char>) -> Seq<char> {
    display_with(k, v, json_string_list(v))
}

/// The base fields `tags` and `location` cannot be deleted; every other field has a delete button.
pub open spec fn delete_button(k: Seq<char>) -> Seq<char> {
    if k == "tags"@ || k == "location"@ {
        Seq::<char>::empty()
    } else {
        DELETE_FIELD_BUTTON@
    }
}

/// One editable metadata field, given the value read as a JSON list of strings;
/// quotes in the shown value are written as `&quot;`.
pub open spec fn field_html_with(k: Seq<char>, v: Seq<char>, parsed: Option<Seq<Seq<char>>>) -> Seq<char> {
    FIELD_0@ + k + FIELD_1@ + k + FIELD_2@ + k + FIELD_3@ + escape_quotes(display_with(k, v, parsed))
        + FIELD_4@ + delete_button(k) + FIELD_5@
}

/// One editable metadata field.
pub open spec fn field_html(k: Seq<char>, v: Seq<char>) -> Seq<char> {
    field_html_with(k, v, json_string_list(v))
}

/// The name shown in the panel: the user's newest rename when it carries a name, else the artist's name.
pub open spec fn detail_name(d: ArtistDetail) -> Seq<char> {
    match d.latest_rename {
        Some(Some(n)) => n@,
        _ => d.artist.name@,
    }
}

/// The id of the user's card for the artist, or the empty text.
pub open spec fn saved_card_id(d: ArtistDetail) -> Seq<char> {
    match d.saved_card {
        Some(c) => c.scryfall_id@,
        None => Seq::<char>::empty(),
    }
}

/// One row of the appearances table.
pub open spec fn appearance_row(year: Seq<char>) -> Seq<char> {
    "<tr><td>"@ + year + "</td></tr>"@
}

/// The card viewer script that ends the panel.
pub open spec fn detail_script() -> Seq<char> {
    DETAIL_SCRIPT_0@ + DETAIL_SCRIPT_1@ + DETAIL_SCRIPT_2@ + DETAIL_SCRIPT_3@ + DETAIL_SCRIPT_4@ + DETAIL_SCRIPT_5@ + DETAIL_SCRIPT_6@ + DETAIL_SCRIPT_7@ + DETAIL_SCRIPT_8@ + DETAIL_SCRIPT_9@ + DETAIL_SCRIPT_10@
}

/// The artist detail panel.
pub open spec fn artist_detail_page(d: ArtistDetail) -> Seq<char> {
    let id = d.artist.id@;
    let name = detail_name(d);
    DETAIL_HEAD_0@ + id + DETAIL_HEAD_1@ + name + DETAIL_HEAD_2@ + saved_card_id(d) + DETAIL_HEAD_3@ + name
        + DETAIL_HEAD_4@ + APPEARANCES_OPEN@
        + concat(d.appearances@.map_values(|a: ArtistAppearance| appearance_row(a.year@)))
        + "</tbody></table>"@ + "</div>"@ + METADATA_OPEN@
        + concat(metadata_entries(d.metadata, d.user_metadata_json.deep_view()).map_values(
            |e: (Seq<char>, Seq<char>)| field_html(e.0, e.1),
        ))
        + NEW_FIELD_SECTION@ + DETAIL_TAIL_0@ + id + DETAIL_TAIL_1@ + id + detail_script()
}

/// The shared metadata holds the tags (as `tags`) exactly when the artist has tags
/// and the area (as `location`) exactly when it has an area, each independent of
/// the other, and nothing else.
pub proof fn lemma_base_entries(meta: Option<ArtistMetadata>)
    ensures
        meta is None ==> base_entries(meta).len() == 0,
        meta matches Some(m) ==> base_entries(meta).len() == (if m.tags is Some { 1int } else { 0int })
            + (if m.area is Some { 1int } else { 0int }),
        meta matches Some(m) ==> (m.tags is Some ==> base_entries(meta).contains(("tags"@, m.tags->0@))),
        meta matches Some(m) ==> (m.area is Some ==> base_entries(meta).contains(("location"@, m.area->0@))),
        meta matches Some(m) ==> forall|i: int| 0 <= i < base_entries(meta).len() ==> (
            (m.tags is Some && #[trigger] base_entries(meta)[i] == ("tags"@, m.tags->0@))
            || (m.area is Some && base_entries(meta)[i] == ("location"@, m.area->0@))),
{
    reveal_strlit("tags");
    reveal_strlit("location");
    if let Some(m) = meta {
        let e = Seq::<(Seq<char>, Seq<char>)>::empty();
        assert("tags"@ != "location"@) by {
            assert("tags"@.len() != "location"@.len());
        }
        match m.tags {
            Some(t) => {
                let w = entries_insert(e, "tags"@, t@);
                assert(w == seq![("tags"@, t@)]);
                match m.area {
                    Some(a) => {
                        assert(w.drop_first() =~= e);
                        assert(w[0].0 != "location"@);
                        assert(entries_insert(e, "location"@, a@) == seq![("location"@, a@)]);
                        assert(entries_insert(w, "location"@, a@) == seq![w[0]] + entries_insert(w.drop_first(), "location"@, a@));
                        assert(entries_insert(w, "location"@, a@) =~= seq![("tags"@, t@), ("location"@, a@)]);
                        assert(base_entries(meta)[0] == ("tags"@, t@));
                        assert(base_entries(meta)[1] == ("location"@, a@));
                    },
                    None => {
                        assert(base_entries(meta)[0] == ("tags"@, t@));
                    },
                }
            },
            None => {
                match m.area {
                    Some(a) => {
                        assert(base_entries(meta) == seq![("location"@, a@)]);
                        assert(base_entries(meta)[0] == ("location"@, a@));
                    },
                    None => {},
                }
            },
        }
    }
}

proof fn lemma_entries_insert_at(m: Seq<(Seq<char>, Seq<char>)>, k: Seq<char>, v: Seq<char>, i: int)
    requires
        0 <= i < m.len(),
        m[i].0 == k,
        forall|j: int| 0 <= j < i ==> m[j].0 != k,
    ensures
        entries_insert(m, k, v) == m.update(i, (k, v)),
    decreases i,
{
    if i > 0 {
        lemma_entries_insert_at(m.drop_first(), k, v, i - 1);
        assert(seq![m[0]] + m.drop_first().update(i - 1, (k, v)) =~= m.update(i, (k, v)));
    }
}

proof fn lemma_entries_insert_absent(m: Seq<(Seq<char>, Seq<char>)>, k: Seq<char>, v: Seq<char>)
    requires
        forall|j: int| 0 <= j < m.len() ==> m[j].0 != k,
    ensures
        entries_insert(m, k, v) == m.push((k, v)),
    decreases m.len(),
{
    if m.len() > 0 {
        lemma_entries_insert_absent(m.drop_first(), k, v);
        assert(seq![m[0]] + m.drop_first().push((k, v)) =~= m.push((k, v)));
    } else {
        assert(seq![(k, v)] =~= m.push((k, v)));
    }
}

fn insert_entry(m: &mut Vec<(String, String)>, k: String, v: String)
    ensures
        final(m).deep_view() == entries_insert(old(m).deep_view(), k@, v@),
{
    let n: usize = m.len();
    let mut i: usize = 0;
    while i < n
        invariant
            n == m@.len(),
            m.deep_view() == old(m).deep_view(),
            i <= n,
            forall|j: int| 0 <= j < i ==> m.deep_view()[j].0 != k@,
        decreases n - i,
    {
        if m[i].0 == k {
            proof {
                lemma_entries_insert_at(m.deep_view(), k@, v@, i as int);
            }
            let ghost before = m.deep_view();
            let ghost kv = k@;
            let ghost vv = v@;
            m.set(i, (k, v));
            assert(m.deep_view() =~= before.update(i as int, (kv, vv)));
            return;
        }
        i = i + 1;
    }
    proof {
        lemma_entries_insert_absent(m.deep_view(), k@, v@);
    }
    let ghost before = m.deep_view();
    let ghost kv = k@;
    let ghost vv = v@;
    m.push((k, v));
    assert(m.deep_view() =~= before.push((kv, vv)));
}

/// The metadata fields shown to a user, given the user's fields as read from the
/// user's JSON object text (`None` when there is no such text or it is not an object).
pub fn merge_metadata(meta: &Option<ArtistMetadata>, user_fields: Option<Vec<(String, Option<String>)>>) -> (res: Vec<(String, String)>)
    ensures
        res.deep_view() == match user_fields.deep_view() {
            Some(f) => with_user_fields(base_entries(*meta), f),
            None => base_entries(*meta),
        },
{
    let mut m: Vec<(String, String)> = Vec::new();
    assert(m.deep_view() =~= Seq::<(Seq<char>, Seq<char>)>::empty());
    if let Some(md) = meta {
        if let Some(t) = &md.tags {
            insert_entry(&mut m, owned("tags"), t.clone());
        }
        if let Some(a) = &md.area {
            insert_entry(&mut m, owned("location"), a.clone());
        }
    }
    assert(m.deep_view() == base_entries(*meta));
    if let Some(fields) = user_fields {
        let ghost base = m.deep_view();
        let n: usize = fields.len();
        let mut i: usize = 0;
        assert(fields.deep_view().take(0) =~= Seq::<(Seq<char>, Option<Seq<char>>)>::empty());
        while i < n
            invariant
                n == fields@.len(),
                i <= n,
                m.deep_view() == with_user_fields(base, fields.deep_view().take(i as int)),
            decreases n - i,
        {
            assert(fields.deep_view().take(i + 1).drop_last() =~= fields.deep_view().take(i as int));
            assert(fields.deep_view().take(i + 1).last() == fields.deep_view()[i as int]);
            let (k, v): &(String, Option<String>) = &fields[i];
            if let Some(vs) = v {
                insert_entry(&mut m, k.clone(), vs.clone());
            }
            i = i + 1;
        }
        assert(fields.deep_view().take(n as int) =~= fields.deep_view());
    }
    m
}

fn shown_fields(meta: &Option<ArtistMetadata>, user_json: &Option<String>) -> (res: Vec<(String, String)>)
    ensures
        res.deep_view() == metadata_entries(*meta, user_json.deep_view()),
{
    let user_fields: Option<Vec<(String, Option<String>)>> = match user_json {
        Some(j) => object_fields(j.as_str()),
        None => None,
    };
    merge_metadata(meta, user_fields)
}

/// One editable metadata field, given the value read as a JSON list of strings
/// (looked at only for the `tags` field).
pub fn field_markup(k: &String, v: &String, parsed: Option<Vec<String>>) -> (res: String)
    ensures
        res@ == field_html_with(k@, v@, parsed.deep_view()),
{
    let is_tags: bool = same_text(k.as_str(), "tags");
    let shown: String = if is_tags {
        match parsed {
            Some(l) => join_strings(&l, ", "),
            None => v.clone(),
        }
    } else {
        v.clone()
    };
    let mut s: String = owned(FIELD_0);
    s.append(k.as_str());
    s.append(FIELD_1);
    s.append(k.as_str());
    s.append(FIELD_2);
    s.append(k.as_str());
    s.append(FIELD_3);
    let escaped: String = escape_quotes_of(shown.as_str());
    s.append(escaped.as_str());
    s.append(FIELD_4);
    if is_tags || same_text(k.as_str(), "location") {
        proof {
            reveal_strlit("");
        }
        assert(s@ =~= s@ + delete_button(k@));
    } else {
        s.append(DELETE_FIELD_BUTTON);
    }
    s.append(FIELD_5);
    s
}

fn field_text(k: &String, v: &String) -> (res: String)
    ensures
        res@ == field_html(k@, v@),
{
    let parsed: Option<Vec<String>> = if same_text(k.as_str(), "tags") { string_list(v.as_str()) } else { None };
    field_markup(k, v, parsed)
}

fn appearance_rows(appearances: &Vec<ArtistAppearance>) -> (res: String)
    ensures
        res@ == concat(appearances@.map_values(|a: ArtistAppearance| appearance_row(a.year@))),
{
    let ghost rows = appearances@.map_values(|a: ArtistAppearance| appearance_row(a.year@));
    let mut lines: Vec<String> = Vec::new();
    let n: usize = appearances.len();
    let mut i: usize = 0;
    while i < n
        invariant
            n == appearances@.len(),
            i <= n,
            rows == appearances@.map_values(|a: ArtistAppearance| appearance_row(a.year@)),
            lines.deep_view() == rows.take(i as int),
        decreases n - i,
    {
        let mut row: String = owned("<tr><td>");
        row.append(appearances[i].year.as_str());
        row.append("</td></tr>");
        let ghost before = lines.deep_view();
        lines.push(row);
        assert(lines.deep_view() =~= before.push(row@));
        i = i + 1;
        assert(lines.deep_view() =~= rows.take(i as int));
    }
    assert(rows.take(n as int) =~= rows);
    concat_strings(&lines)
}

fn metadata_fields_text(fields: &Vec<(String, String)>) -> (res: String)
    ensures
        res@ == concat(fields.deep_view().map_values(|e: (Seq<char>, Seq<char>)| field_html(e.0, e.1))),
{
    let ghost rows = fields.deep_view().map_values(|e: (Seq<char>, Seq<char>)| field_html(e.0, e.1));
    let mut lines: Vec<String> = Vec::new();
    let n: usize = fields.len();
    let mut i: usize = 0;
    while i < n
        invariant
            n == fields@.len(),
            i <= n,
            rows == fields.deep_view().map_values(|e: (Seq<char>, Seq<char>)| field_html(e.0, e.1)),
            lines.deep_view() == rows.take(i as int),
        decreases n - i,
    {
        let line: String = field_text(&fields[i].0, &fields[i].1);
        let ghost before = lines.deep_view();
        lines.push(line);
        assert(lines.deep_view() =~= before.push(line@));
        i = i + 1;
        assert(lines.deep_view() =~= rows.take(i as int));
    }
    assert(rows.take(n as int) =~= rows);
    concat_strings(&lines)
}

/// The panel opens with the artist's id, the shown name (the user's newest rename
/// when it carries a name, else the artist's name) and the id of the card the user
/// saved for the artist, empty when the user saved none.
pub proof fn lemma_detail_head(d: ArtistDetail)
    ensures
        ({
            let name = if d.latest_rename is Some && d.latest_rename->0 is Some {
                d.latest_rename->0->0@
            } else {
                d.artist.name@
            };
            let card = if d.saved_card is Some { d.saved_card->0.scryfall_id@ } else { Seq::<char>::empty() };
            let head = DETAIL_HEAD_0@ + d.artist.id@ + DETAIL_HEAD_1@ + name + DETAIL_HEAD_2@ + card + DETAIL_HEAD_3@;
            artist_detail_page(d).subrange(0, head.len() as int) == head
        }),
{
    let name = if d.latest_rename is Some && d.latest_rename->0 is Some {
        d.latest_rename->0->0@
    } else {
        d.artist.name@
    };
    let card = if d.saved_card is Some { d.saved_card->0.scryfall_id@ } else { Seq::<char>::empty() };
    let head = DETAIL_HEAD_0@ + d.artist.id@ + DETAIL_HEAD_1@ + name + DETAIL_HEAD_2@ + card + DETAIL_HEAD_3@;
    assert(detail_name(d) == name);
    assert(saved_card_id(d) == card);
    let page = artist_detail_page(d);
    let rest = page.subrange(head.len() as int, page.len() as int);
    assert(page =~= head + rest);
    assert(page.subrange(0, head.len() as int) =~= head);
}

/// The answer to an artist detail request: the panel, or `Artist not found`
/// with status 404 when the artist could not be read (`None`).
pub fn artist_detail_reply(detail: Option<ArtistDetail>) -> (r: Reply)
    ensures
        match detail {
            Some(d) => r.is_html(STATUS_OK, artist_detail_page(d)),
            None => r.is_html(STATUS_NOT_FOUND, paragraph("Artist not found"@)),
        },
{
    let d: ArtistDetail = match detail {
        Some(d) => d,
        None => {
            return error_response(STATUS_NOT_FOUND, "Artist not found");
        },
    };
    let name: &str = match &d.latest_rename {
        Some(Some(n)) => n.as_str(),
        _ => d.artist.name.as_str(),
    };
    let saved: &str = match &d.saved_card {
        Some(c) => c.scryfall_id.as_str(),
        None => "",
    };
    proof {
        reveal_strlit("");
    }
    assert(saved@ == saved_card_id(d));
    let rows: String = appearance_rows(&d.appearances);
    let fields: Vec<(String, String)> = shown_fields(&d.metadata, &d.user_metadata_json);
    let field_rows: String = metadata_fields_text(&fields);
    let id: &str = d.artist.id.as_str();
    let mut html: String = owned(DETAIL_HEAD_0);
    html.append(id);
    html.append(DETAIL_HEAD_1);
    html.append(name);
    html.append(DETAIL_HEAD_2);
    html.append(saved);
    html.append(DETAIL_HEAD_3);
    html.append(name);
    html.append(DETAIL_HEAD_4);
    html.append(APPEARANCES_OPEN);
    html.append(rows.as_str());
    html.append("</tbody></table>");
    html.append("</div>");
    html.append(METADATA_OPEN);
    html.append(field_rows.as_str());
    html.append(NEW_FIELD_SECTION);
    html.append(DETAIL_TAIL_0);
    html.append(id);
    html.append(DETAIL_TAIL_1);
    html.append(id);
    html.append(DETAIL_SCRIPT_0);
    html.append(DETAIL_SCRIPT_1);
    html.append(DETAIL_SCRIPT_2);
    html.append(DETAIL_SCRIPT_3);
    html.append(DETAIL_SCRIPT_4);
    html.append(DETAIL_SCRIPT_5);
    html.append(DETAIL_SCRIPT_6);
    html.append(DETAIL_SCRIPT_7);
    html.append(DETAIL_SCRIPT_8);
    html.append(DETAIL_SCRIPT_9);
    html.append(DETAIL_SCRIPT_10);
    assert(html@ =~= artist_detail_page(d));
    html_ok(html)
}

// ---------------------------------------------------------------------------
// What the metadata fields hold

/// The value of the first field named `k`.
pub open spec fn entry_value(m: Seq<(Seq<char>, Seq<char>)>, k: Seq<char>) -> Option<Seq<char>>
    decreases m.len(),
{
    if m.len() == 0 {
        None
    } else if m[0].0 == k {
        Some(m[0].1)
    } else {
        entry_value(m.drop_first(), k)
    }
}

/// The value of the last user field named `k` whose value is a JSON string.
pub open spec fn last_string_field(fields: Seq<(Seq<char>, Option<Seq<char>>)>, k: Seq<char>) -> Option<Seq<char>>
    decreases fields.len(),
{
    if fields.len() == 0 {
        None
    } else if fields.last().0 == k && fields.last().1 is Some {
        fields.last().1
    } else {
        last_string_field(fields.drop_last(), k)
    }
}

/// Setting a field gives it that value.
pub proof fn lemma_insert_sets(m: Seq<(Seq<char>, Seq<char>)>, k: Seq<char>, v: Seq<char>)
    ensures
        entry_value(entries_insert(m, k, v), k) == Some(v),
    decreases m.len(),
{
    if m.len() > 0 && m[0].0 != k {
        lemma_insert_sets(m.drop_first(), k, v);
        assert((seq![m[0]] + entries_insert(m.drop_first(), k, v)).drop_first() =~= entries_insert(m.drop_first(), k, v));
    }
}

/// Setting a field leaves every other field's value as it was.
pub proof fn lemma_insert_keeps_others(m: Seq<(Seq<char>, Seq<char>)>, k2: Seq<char>, v2: Seq<char>, k: Seq<char>)
    requires
        k2 != k,
    ensures
        entry_value(entries_insert(m, k2, v2), k) == entry_value(m, k),
    decreases m.len(),
{
    if m.len() > 0 {
        if m[0].0 == k2 {
            let u = m.update(0, (k2, v2));
            assert(u[0] == (k2, v2));
            assert(u.drop_first() =~= m.drop_first());
            assert(entry_value(u, k) == entry_value(u.drop_first(), k));
            assert(entry_value(m, k) == entry_value(m.drop_first(), k));
            assert(entries_insert(m, k2, v2) == u);
        } else {
            lemma_insert_keeps_others(m.drop_first(), k2, v2, k);
            let w = seq![m[0]] + entries_insert(m.drop_first(), k2, v2);
            assert(w[0] == m[0]);
            assert(w.drop_first() =~= entries_insert(m.drop_first(), k2, v2));
        }
    } else {
        let e = Seq::<(Seq<char>, Seq<char>)>::empty();
        assert(seq![(k2, v2)].drop_first() =~= e);
        assert(entry_value(e, k) is None);
        assert(entries_insert(m, k2, v2) == seq![(k2, v2)]);
        assert(entry_value(seq![(k2, v2)], k) == entry_value(e, k));
    }
}

proof fn lemma_user_fields_value(base: Seq<(Seq<char>, Seq<char>)>, fields: Seq<(Seq<char>, Option<Seq<char>>)>, k: Seq<char>)
    ensures
        entry_value(with_user_fields(base, fields), k) == (match last_string_field(fields, k) {
            Some(v) => Some(v),
            None => entry_value(base, k),
        }),
    decreases fields.len(),
{
    if fields.len() > 0 {
        lemma_user_fields_value(base, fields.drop_last(), k);
        let prev = with_user_fields(base, fields.drop_last());
        match fields.last().1 {
            Some(v) => {
                if fields.last().0 == k {
                    lemma_insert_sets(prev, k, v);
                } else {
                    lemma_insert_keeps_others(prev, fields.last().0, v, k);
                }
            },
            None => {},
        }
    }
}

/// A user's own metadata overrides the shared metadata: for every field name, the
/// panel shows the user's last string value for it when the user's text is a JSON
/// object that has one, and the shared value otherwise.
pub proof fn lemma_user_metadata_overrides(meta: Option<ArtistMetadata>, user_json: Seq<char>, k: Seq<char>)
    requires
        json_object_fields(user_json) is Some,
    ensures
        entry_value(metadata_entries(meta, Some(user_json)), k) == (match last_string_field(json_object_fields(user_json)->0, k) {
            Some(v) => Some(v),
            None => entry_value(base_entries(meta), k),
        }),
{
    lemma_user_fields_value(base_entries(meta), json_object_fields(user_json)->0, k);
}

} // verus!
