# upjar

Creates or updates a Java module on a Sankhya server from the command line:
`upjar <config.json>` logs in, creates the module (or finds it), sends the
jar, replaces a jar of the same name, adds the new one and logs out.

- `src/` is the verified library (Verus): template filling (`template`),
  the embedded templates (`resources`), service addresses (`endpoint`),
  request bodies (`requests`), login errors (`login`), reading replies
  (`replies`) and the upload as a state machine (`workflow`), whose `step`
  says, for each server reply, what to send next.
- `app/` is the program around it: configuration file, HTTP client,
  multipart upload, JSON decoding of replies, and the loop that performs
  each action of the state machine.
