# project_bot

A Discord bot that keeps projects: it sets up, renames and deletes the categories, channels and
roles of a project, manages who takes part in it, and keeps the project's page in Notion up to date.

The library under `src/` holds the logic of the commands, of the cache and of what is written to and
read from Notion, in Verus with contracts on its functions. It does no input or output. A command is
a value that goes from state to state: it says what is to be done next (`next_action`), and takes in
what came back (`run_project_command`, `run_member_command`).

The program under `app/` does what is asked, over Discord's gateway and Notion's HTTP interface. It
also answers the help command, fetches the members of the workspace and finds them by their Notion
ids, and looks up the project of a category when the library asks who manages it.

- `text`: comparison, decimal numbers, Discord ids and mentions
- `json`: JSON values of `serde_json`, with a model of what they hold
- `cache`: members and projects that have been fetched, with indexes into them
- `integration::notion`: projects and members as Notion keeps them, requests and answers
- `commands`: the project and member commands, their options and registration, roles, channels and
  permissions; `commands::project::law` and `commands::member::law` state what holds of every
  command on its way

Functions marked `external_body`, and the one `assume_specification`, state what is taken on trust
of `serde_json`, `serenity` and the standard library; each names the function that it speaks of.

The program needs a `.env` file to start. It reads `DISCORD_TOKEN` and `SERVER_ID` when it starts, and
`NOTION_TOKEN`, `NOTION_VERSION`, `NOTION_PROJECT_DATABASE_ID` and `NOTION_MEMBER_DATA_SOURCE_ID`
when it speaks to Notion.
